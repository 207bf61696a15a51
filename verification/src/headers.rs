//! Interpreters for the fixed-layout movie (`mvhd`) and track (`tkhd`)
//! header boxes. Both come in a version 0 (32-bit times) and a version 1
//! (64-bit times) variant, selected by the leading version byte.

use vstd::prelude::*;
use crate::bytes::{be32, be64, read_be32, read_be64};
use crate::errors::ParseError;

verus! {

/// The timing fields of the movie header box, in a uniform representation
/// for both layout versions.
#[derive(Clone, Copy, Debug, PartialEq, Eq, Structural)]
pub struct MovieHeader {
    /// Seconds since the format epoch (1904-01-01T00:00:00 UTC).
    pub creation_time: u64,
    /// Seconds since the format epoch.
    pub modification_time: u64,
    /// Duration units per second.
    pub timescale: u32,
    /// Presentation length, in `timescale` units.
    pub duration: u64,
    /// Playback rate, as a 16.16 fixed-point value.
    pub rate: u32,
}

/// The one field of the track header box this design consults: the track's
/// identity. Its timing fields are not propagated to the summary record.
#[derive(Clone, Copy, Debug, PartialEq, Eq, Structural)]
pub struct TrackHeader {
    pub track_id: u32,
}

/// The movie header encoded in the `mvhd` payload `s[off .. off + len]`.
///
/// After the version byte and 3 flag bytes come, for version 0, four 32-bit
/// fields (creation time, modification time, timescale, duration), or, for
/// version 1, two 64-bit times, a 32-bit timescale and a 64-bit duration;
/// then a 32-bit fixed-point rate. A payload too short for its version's
/// layout yields `TruncatedInput`; a version other than 0 or 1 yields
/// `CorruptContainer`.
pub open spec fn mvhd_at(s: Seq<u8>, off: int, len: int) -> Result<MovieHeader, ParseError>
    recommends
        0 <= off,
        0 <= len,
        off + len <= s.len(),
{
    if len < 4 {
        Err(ParseError::TruncatedInput)
    } else if s[off] == 0 {
        if len < 24 {
            Err(ParseError::TruncatedInput)
        } else {
            Ok(MovieHeader {
                creation_time: be32(s, off + 4) as u64,
                modification_time: be32(s, off + 8) as u64,
                timescale: be32(s, off + 12) as u32,
                duration: be32(s, off + 16) as u64,
                rate: be32(s, off + 20) as u32,
            })
        }
    } else if s[off] == 1 {
        if len < 36 {
            Err(ParseError::TruncatedInput)
        } else {
            Ok(MovieHeader {
                creation_time: be64(s, off + 4) as u64,
                modification_time: be64(s, off + 12) as u64,
                timescale: be32(s, off + 20) as u32,
                duration: be64(s, off + 24) as u64,
                rate: be32(s, off + 32) as u32,
            })
        }
    } else {
        Err(ParseError::CorruptContainer)
    }
}

/// The track identity encoded in the `tkhd` payload `s[off .. off + len]`.
///
/// The track id sits after the version byte, 3 flag bytes and the two
/// version-dependent time fields: at payload offset 12 for version 0 and at
/// payload offset 20 for version 1.
pub open spec fn tkhd_at(s: Seq<u8>, off: int, len: int) -> Result<TrackHeader, ParseError>
    recommends
        0 <= off,
        0 <= len,
        off + len <= s.len(),
{
    if len < 4 {
        Err(ParseError::TruncatedInput)
    } else if s[off] == 0 {
        if len < 16 {
            Err(ParseError::TruncatedInput)
        } else {
            Ok(TrackHeader { track_id: be32(s, off + 12) as u32 })
        }
    } else if s[off] == 1 {
        if len < 24 {
            Err(ParseError::TruncatedInput)
        } else {
            Ok(TrackHeader { track_id: be32(s, off + 20) as u32 })
        }
    } else {
        Err(ParseError::CorruptContainer)
    }
}

/// Decodes the movie header out of an `mvhd` payload.
pub fn decode_mvhd(data: &Vec<u8>, off: usize, len: usize) -> (r: Result<MovieHeader, ParseError>)
    requires
        off + len <= data.len(),
    ensures
        r == mvhd_at(data@, off as int, len as int),
{
    if len < 4 {
        return Err(ParseError::TruncatedInput);
    }
    let version = data[off];
    if version == 0 {
        if len < 24 {
            return Err(ParseError::TruncatedInput);
        }
        Ok(MovieHeader {
            creation_time: read_be32(data, off + 4) as u64,
            modification_time: read_be32(data, off + 8) as u64,
            timescale: read_be32(data, off + 12),
            duration: read_be32(data, off + 16) as u64,
            rate: read_be32(data, off + 20),
        })
    } else if version == 1 {
        if len < 36 {
            return Err(ParseError::TruncatedInput);
        }
        Ok(MovieHeader {
            creation_time: read_be64(data, off + 4),
            modification_time: read_be64(data, off + 12),
            timescale: read_be32(data, off + 20),
            duration: read_be64(data, off + 24),
            rate: read_be32(data, off + 32),
        })
    } else {
        Err(ParseError::CorruptContainer)
    }
}

/// Decodes the track identity out of a `tkhd` payload.
pub fn decode_tkhd(data: &Vec<u8>, off: usize, len: usize) -> (r: Result<TrackHeader, ParseError>)
    requires
        off + len <= data.len(),
    ensures
        r == tkhd_at(data@, off as int, len as int),
{
    if len < 4 {
        return Err(ParseError::TruncatedInput);
    }
    let version = data[off];
    if version == 0 {
        if len < 16 {
            return Err(ParseError::TruncatedInput);
        }
        Ok(TrackHeader { track_id: read_be32(data, off + 12) })
    } else if version == 1 {
        if len < 24 {
            return Err(ParseError::TruncatedInput);
        }
        Ok(TrackHeader { track_id: read_be32(data, off + 20) })
    } else {
        Err(ParseError::CorruptContainer)
    }
}

} // verus!
