//! Interpreters for the sample-table leaves of a video track: `stts`
//! (time-to-sample, summed into a frame count), `stsd` (sample description,
//! scanned for a recognized video codec entry) and `stsz` (sample sizes,
//! summed into the track's total sample bytes).

use vstd::prelude::*;
use crate::boxes::{box_at, read_box_header, FOURCC_AVC1};
use crate::bytes::{be32, read_be32};
use crate::errors::ParseError;

verus! {

/// The sum of the first `n` sample counts of an `stts` payload that starts
/// at `off`: entry `i` is the 32-bit count at `off + 8 + 8 * i`, followed by
/// a 32-bit sample delta that the summary does not consult.
pub open spec fn stts_sum(s: Seq<u8>, off: int, n: int) -> int
    decreases n,
{
    if n <= 0 {
        0
    } else {
        stts_sum(s, off, n - 1) + be32(s, off + 8 + 8 * (n - 1))
    }
}

pub proof fn lemma_stts_sum_bound(s: Seq<u8>, off: int, n: int)
    requires
        n >= 0,
    ensures
        0 <= stts_sum(s, off, n) <= n * 0xFFFF_FFFFu32,
    decreases n,
{
    if n > 0 {
        lemma_stts_sum_bound(s, off, n - 1);
    }
}

/// The total sample count encoded in the `stts` payload
/// `s[off .. off + len]`: a version/flags word, a 32-bit entry count, then
/// that many `(sample_count, sample_delta)` pairs, whose counts are summed.
pub open spec fn stts_at(s: Seq<u8>, off: int, len: int) -> Result<u64, ParseError>
    recommends
        0 <= off,
        0 <= len,
        off + len <= s.len(),
{
    if len < 8 {
        Err(ParseError::TruncatedInput)
    } else {
        let n = be32(s, off + 4);
        if len < 8 + 8 * n {
            Err(ParseError::TruncatedInput)
        } else {
            Ok(stts_sum(s, off, n) as u64)
        }
    }
}

/// Sums the sample counts of an `stts` payload.
pub fn decode_stts(data: &Vec<u8>, off: usize, len: usize) -> (r: Result<u64, ParseError>)
    requires
        off + len <= data.len(),
    ensures
        r == stts_at(data@, off as int, len as int),
{
    if len < 8 {
        return Err(ParseError::TruncatedInput);
    }
    let n = read_be32(data, off + 4);
    if (len as u64) < 8 + 8 * (n as u64) {
        return Err(ParseError::TruncatedInput);
    }
    let mut sum: u64 = 0;
    let mut i: u32 = 0;
    while i < n
        invariant
            i <= n,
            off + len <= data.len(),
            len >= 8 + 8 * n,
            sum == stts_sum(data@, off as int, i as int),
            sum <= i * 0xFFFF_FFFFu32,
        decreases n - i,
    {
        let c = read_be32(data, off + 8 + 8 * (i as usize));
        proof {
            assert((i + 1) * 0xFFFF_FFFFu32 == i * 0xFFFF_FFFFu32 + 0xFFFF_FFFFu32)
                by (nonlinear_arith);
            assert((i + 1) * 0xFFFF_FFFFu32 <= 0xFFFF_FFFFu32 * 0xFFFF_FFFFu32)
                by (nonlinear_arith)
                requires i + 1 <= 0xFFFF_FFFFu32, i >= 0;
        }
        sum = sum + (c as u64);
        i = i + 1;
    }
    proof {
        lemma_stts_sum_bound(data@, off as int, n as int);
    }
    Ok(sum)
}

/// Whether the sample entries of an `stsd` payload, scanned back-to-back
/// from `off` to `end`, include one whose type code is AVC1 — the marker by
/// which a track is classified as video. Entries follow the box-header
/// layout, so a malformed entry surfaces the box reader's error.
pub open spec fn stsd_scan(s: Seq<u8>, off: int, end: int, found: bool) -> Result<
    bool,
    ParseError,
>
    recommends
        0 <= off <= end <= s.len(),
    decreases end - off,
{
    if off >= end {
        Ok(found)
    } else {
        match box_at(s, off, end) {
            Err(e) => Err(e),
            Ok(h) => stsd_scan(s, off + h.size, end, found || h.type_code == FOURCC_AVC1),
        }
    }
}

/// Whether the `stsd` payload `s[off .. off + len]` declares a recognized
/// video codec: a version/flags word and a 32-bit entry count, then the
/// sample entries themselves.
pub open spec fn stsd_at(s: Seq<u8>, off: int, len: int) -> Result<bool, ParseError>
    recommends
        0 <= off,
        0 <= len,
        off + len <= s.len(),
{
    if len < 8 {
        Err(ParseError::TruncatedInput)
    } else {
        stsd_scan(s, off + 8, off + len, false)
    }
}

/// Scans an `stsd` payload for a recognized video codec entry.
pub fn decode_stsd(data: &Vec<u8>, off: usize, len: usize) -> (r: Result<bool, ParseError>)
    requires
        off + len <= data.len(),
    ensures
        r == stsd_at(data@, off as int, len as int),
{
    if len < 8 {
        return Err(ParseError::TruncatedInput);
    }
    let end = off + len;
    let mut cur: usize = off + 8;
    let mut found: bool = false;
    loop
        invariant
            len >= 8,
            end == off + len,
            off + 8 <= cur <= end,
            end <= data.len(),
            stsd_scan(data@, off as int + 8, end as int, false) == stsd_scan(
                data@,
                cur as int,
                end as int,
                found,
            ),
        decreases end - cur,
    {
        if cur >= end {
            return Ok(found);
        }
        match read_box_header(data, cur, end) {
            Err(e) => {
                return Err(e);
            },
            Ok(h) => {
                found = found || h.type_code == FOURCC_AVC1;
                cur = h.payload_offset + h.payload_length;
            },
        }
    }
}

/// The sum of the first `n` sample sizes of an `stsz` payload that starts at
/// `off`: entry `i` is the 32-bit size at `off + 12 + 4 * i`.
pub open spec fn stsz_sum(s: Seq<u8>, off: int, n: int) -> int
    decreases n,
{
    if n <= 0 {
        0
    } else {
        stsz_sum(s, off, n - 1) + be32(s, off + 12 + 4 * (n - 1))
    }
}

pub proof fn lemma_stsz_sum_bound(s: Seq<u8>, off: int, n: int)
    requires
        n >= 0,
    ensures
        0 <= stsz_sum(s, off, n) <= n * 0xFFFF_FFFFu32,
    decreases n,
{
    if n > 0 {
        lemma_stsz_sum_bound(s, off, n - 1);
    }
}

/// The total sample bytes encoded in the `stsz` payload
/// `s[off .. off + len]`: a version/flags word, a 32-bit constant sample
/// size, and a 32-bit sample count. A nonzero constant size covers every
/// sample; a zero one is followed by a 32-bit size per sample, summed.
pub open spec fn stsz_at(s: Seq<u8>, off: int, len: int) -> Result<u64, ParseError>
    recommends
        0 <= off,
        0 <= len,
        off + len <= s.len(),
{
    if len < 12 {
        Err(ParseError::TruncatedInput)
    } else {
        let fixed = be32(s, off + 4);
        let n = be32(s, off + 8);
        if fixed != 0 {
            Ok((fixed * n) as u64)
        } else if len < 12 + 4 * n {
            Err(ParseError::TruncatedInput)
        } else {
            Ok(stsz_sum(s, off, n) as u64)
        }
    }
}

/// Sums the sample sizes of an `stsz` payload.
pub fn decode_stsz(data: &Vec<u8>, off: usize, len: usize) -> (r: Result<u64, ParseError>)
    requires
        off + len <= data.len(),
    ensures
        r == stsz_at(data@, off as int, len as int),
{
    if len < 12 {
        return Err(ParseError::TruncatedInput);
    }
    let fixed = read_be32(data, off + 4);
    let n = read_be32(data, off + 8);
    if fixed != 0 {
        proof {
            assert(fixed * n <= 0xFFFF_FFFFu32 * 0xFFFF_FFFFu32) by (nonlinear_arith)
                requires fixed <= 0xFFFF_FFFFu32, n <= 0xFFFF_FFFFu32, fixed >= 0, n >= 0;
        }
        return Ok((fixed as u64) * (n as u64));
    }
    if (len as u64) < 12 + 4 * (n as u64) {
        return Err(ParseError::TruncatedInput);
    }
    let mut sum: u64 = 0;
    let mut i: u32 = 0;
    while i < n
        invariant
            i <= n,
            off + len <= data.len(),
            len >= 12 + 4 * n,
            sum == stsz_sum(data@, off as int, i as int),
            sum <= i * 0xFFFF_FFFFu32,
        decreases n - i,
    {
        let c = read_be32(data, off + 12 + 4 * (i as usize));
        proof {
            assert((i + 1) * 0xFFFF_FFFFu32 == i * 0xFFFF_FFFFu32 + 0xFFFF_FFFFu32)
                by (nonlinear_arith);
            assert((i + 1) * 0xFFFF_FFFFu32 <= 0xFFFF_FFFFu32 * 0xFFFF_FFFFu32)
                by (nonlinear_arith)
                requires i + 1 <= 0xFFFF_FFFFu32, i >= 0;
        }
        sum = sum + (c as u64);
        i = i + 1;
    }
    proof {
        lemma_stsz_sum_bound(data@, off as int, n as int);
    }
    Ok(sum)
}

} // verus!
