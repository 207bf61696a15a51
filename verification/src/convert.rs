//! The epoch and unit converter. Container timestamps count seconds since
//! 1904-01-01T00:00:00 UTC; the UNIX epoch starts 2,082,844,800 seconds
//! later. A stored value below that constant is a malformed or placeholder
//! timestamp and converts to an "unknown" sentinel instead of underflowing.

use vstd::prelude::*;
use crate::errors::ParseError;

verus! {

/// Seconds from 1904-01-01T00:00:00 UTC to 1970-01-01T00:00:00 UTC.
pub const MP4_TO_UNIX_EPOCH_SECS: u64 = 2_082_844_800;

/// The UNIX-epoch seconds of a format-epoch timestamp, `None` standing for
/// the "unknown" sentinel of an underflowing value.
pub open spec fn unix_time_of(time: int) -> Option<int> {
    if time >= MP4_TO_UNIX_EPOCH_SECS {
        Some(time - MP4_TO_UNIX_EPOCH_SECS)
    } else {
        None
    }
}

/// Converts a timestamp from the format epoch (seconds since
/// 1904-01-01T00:00:00 UTC) to the UNIX epoch (seconds since
/// 1970-01-01T00:00:00 UTC), or `None` for a value too small to convert.
pub fn mp4time_to_unix_time(time: u64) -> (r: Option<u64>)
    ensures
        r matches Some(u) ==> time >= MP4_TO_UNIX_EPOCH_SECS && u == time - MP4_TO_UNIX_EPOCH_SECS,
        r is None ==> time < MP4_TO_UNIX_EPOCH_SECS,
{
    time.checked_sub(MP4_TO_UNIX_EPOCH_SECS)
}

/// The strict form of the conversion, for callers that treat an
/// underflowing timestamp as an error rather than absorbing the sentinel.
pub fn mp4time_to_unix_time_strict(time: u64) -> (r: Result<u64, ParseError>)
    ensures
        r matches Ok(u) ==> time >= MP4_TO_UNIX_EPOCH_SECS && u == time - MP4_TO_UNIX_EPOCH_SECS,
        r matches Err(e) ==> time < MP4_TO_UNIX_EPOCH_SECS && e == ParseError::ClockConversionError,
{
    match mp4time_to_unix_time(time) {
        Some(u) => Ok(u),
        None => Err(ParseError::ClockConversionError),
    }
}

/// Relies on chrono's `Local::now().offset().local_minus_utc()`: the
/// current local offset from UTC in seconds, which chrono's `FixedOffset`
/// keeps strictly between -86,400 and 86,400. The value depends on the
/// machine's timezone and the moment of the call, so nothing more is
/// promised of it.
#[verifier::external_body]
fn local_utc_offset_seconds() -> (r: i32)
    ensures
        -86400 < r < 86400,
{
    chrono::Local::now().offset().local_minus_utc()
}

/// The local presentation seconds of a format-epoch timestamp: the
/// UNIX-epoch seconds shifted by the machine's current UTC offset, or
/// `None` for the "unknown" sentinel. Callers needing UTC use
/// `mp4time_to_unix_time` and receive the pre-localization value.
pub fn mp4_time_to_local_secs(time: u64) -> (r: Option<i128>)
    ensures
        time < MP4_TO_UNIX_EPOCH_SECS ==> r is None,
        time >= MP4_TO_UNIX_EPOCH_SECS ==> (r matches Some(v) && time - MP4_TO_UNIX_EPOCH_SECS
            - 86400 < v < time - MP4_TO_UNIX_EPOCH_SECS + 86400),
{
    match mp4time_to_unix_time(time) {
        None => None,
        Some(u) => {
            let off = local_utc_offset_seconds();
            let shifted: i128 = (u as i128) - (off as i128);
            Some(shifted)
        },
    }
}

} // verus!
