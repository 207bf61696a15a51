//! The box tree walker. It parses sibling boxes back-to-back until their
//! enclosing payload is exhausted, descends into the container types
//! (`moov`, `trak`, `mdia`, `minf`, `stbl`), hands the leaf types of
//! interest to their interpreters, and silently skips everything else, so
//! that one exotic or vendor box never aborts the extraction.

use vstd::prelude::*;
use crate::boxes::{
    box_at, read_box_header, FOURCC_MDIA, FOURCC_MINF, FOURCC_MOOV, FOURCC_MVHD, FOURCC_STBL,
    FOURCC_STSD, FOURCC_STSZ, FOURCC_STTS, FOURCC_TKHD, FOURCC_TRAK,
};
use crate::errors::ParseError;
use crate::headers::{decode_mvhd, decode_tkhd, mvhd_at, tkhd_at, MovieHeader};
use crate::samples::{decode_stsd, decode_stsz, decode_stts, stsd_at, stsz_at, stts_at};

verus! {

/// What the walker keeps of the one track classified as video.
#[derive(Clone, Copy, Debug, PartialEq, Eq, Structural)]
pub struct TrackStats {
    /// Sum of the sample counts across all `stts` entries: the frame count.
    pub sample_count: u64,
    /// Total sample bytes from `stsz`, the basis of the bitrate.
    pub total_sample_bytes: u64,
}

/// The walker's running state inside one `trak` subtree.
#[derive(Clone, Copy, Debug, PartialEq, Eq, Structural)]
pub struct TrackAgg {
    /// Whether the track's `stsd` declared a recognized video codec entry.
    pub has_video: bool,
    pub sample_count: u64,
    pub total_sample_bytes: u64,
}

/// The walker's running state outside `trak` subtrees.
#[derive(Clone, Copy, Debug, PartialEq, Eq)]
pub struct MovieAgg {
    /// The last movie header seen.
    pub mvhd: Option<MovieHeader>,
    /// The stats of the last track classified as video.
    pub video: Option<TrackStats>,
}

/// The track state the walker starts each `trak` subtree with.
pub open spec fn empty_track_agg() -> TrackAgg {
    TrackAgg { has_video: false, sample_count: 0, total_sample_bytes: 0 }
}

/// The movie state the walker starts each file with.
pub open spec fn empty_movie_agg() -> MovieAgg {
    MovieAgg { mvhd: None, video: None }
}

/// A finished `trak` subtree updates the movie state: a track with a
/// recognized video codec entry becomes the movie's video track (a later
/// one replaces an earlier one); any other track leaves no trace.
pub open spec fn merge_track(agg: MovieAgg, t: TrackAgg) -> MovieAgg {
    if t.has_video {
        MovieAgg {
            mvhd: agg.mvhd,
            video: Some(
                TrackStats {
                    sample_count: t.sample_count,
                    total_sample_bytes: t.total_sample_bytes,
                },
            ),
        }
    } else {
        agg
    }
}

/// The movie state after walking the sibling boxes of `s[off .. end]`
/// outside any `trak`: `moov`, `mdia`, `minf` and `stbl` are entered in
/// place, a `trak` subtree is walked with its own track state and merged,
/// an `mvhd` leaf is decoded, and every other box is skipped whole.
pub open spec fn walk_movie(s: Seq<u8>, off: int, end: int, agg: MovieAgg) -> Result<
    MovieAgg,
    ParseError,
>
    recommends
        0 <= off <= end <= s.len(),
    decreases end - off,
{
    if off >= end {
        Ok(agg)
    } else {
        match box_at(s, off, end) {
            Err(e) => Err(e),
            Ok(h) => {
                let step: Result<MovieAgg, ParseError> = if h.type_code == FOURCC_MOOV
                    || h.type_code == FOURCC_MDIA || h.type_code == FOURCC_MINF || h.type_code
                    == FOURCC_STBL {
                    walk_movie(s, h.payload_offset, h.payload_offset + h.payload_length, agg)
                } else if h.type_code == FOURCC_TRAK {
                    match walk_track(
                        s,
                        h.payload_offset,
                        h.payload_offset + h.payload_length,
                        empty_track_agg(),
                    ) {
                        Err(e) => Err(e),
                        Ok(t) => Ok(merge_track(agg, t)),
                    }
                } else if h.type_code == FOURCC_MVHD {
                    match mvhd_at(s, h.payload_offset, h.payload_length) {
                        Err(e) => Err(e),
                        Ok(mh) => Ok(MovieAgg { mvhd: Some(mh), video: agg.video }),
                    }
                } else {
                    Ok(agg)
                };
                match step {
                    Err(e) => Err(e),
                    Ok(agg2) => walk_movie(s, off + h.size, end, agg2),
                }
            },
        }
    }
}

/// The track state after walking the sibling boxes of `s[off .. end]`
/// inside a `trak`: `mdia`, `minf` and `stbl` are entered in place, `tkhd`
/// is decoded to validate the track's identity, `stts`, `stsd` and `stsz`
/// feed the track's stats, and every other box is skipped whole.
pub open spec fn walk_track(s: Seq<u8>, off: int, end: int, agg: TrackAgg) -> Result<
    TrackAgg,
    ParseError,
>
    recommends
        0 <= off <= end <= s.len(),
    decreases end - off,
{
    if off >= end {
        Ok(agg)
    } else {
        match box_at(s, off, end) {
            Err(e) => Err(e),
            Ok(h) => {
                let step: Result<TrackAgg, ParseError> = if h.type_code == FOURCC_MDIA
                    || h.type_code == FOURCC_MINF || h.type_code == FOURCC_STBL {
                    walk_track(s, h.payload_offset, h.payload_offset + h.payload_length, agg)
                } else if h.type_code == FOURCC_TKHD {
                    match tkhd_at(s, h.payload_offset, h.payload_length) {
                        Err(e) => Err(e),
                        Ok(_) => Ok(agg),
                    }
                } else if h.type_code == FOURCC_STTS {
                    match stts_at(s, h.payload_offset, h.payload_length) {
                        Err(e) => Err(e),
                        Ok(n) => Ok(
                            TrackAgg {
                                has_video: agg.has_video,
                                sample_count: n,
                                total_sample_bytes: agg.total_sample_bytes,
                            },
                        ),
                    }
                } else if h.type_code == FOURCC_STSD {
                    match stsd_at(s, h.payload_offset, h.payload_length) {
                        Err(e) => Err(e),
                        Ok(v) => Ok(
                            TrackAgg {
                                has_video: agg.has_video || v,
                                sample_count: agg.sample_count,
                                total_sample_bytes: agg.total_sample_bytes,
                            },
                        ),
                    }
                } else if h.type_code == FOURCC_STSZ {
                    match stsz_at(s, h.payload_offset, h.payload_length) {
                        Err(e) => Err(e),
                        Ok(b) => Ok(
                            TrackAgg {
                                has_video: agg.has_video,
                                sample_count: agg.sample_count,
                                total_sample_bytes: b,
                            },
                        ),
                    }
                } else {
                    Ok(agg)
                };
                match step {
                    Err(e) => Err(e),
                    Ok(agg2) => walk_track(s, off + h.size, end, agg2),
                }
            },
        }
    }
}

/// The movie state extracted from a whole byte source.
pub open spec fn movie_of(s: Seq<u8>) -> Result<MovieAgg, ParseError> {
    walk_movie(s, 0, s.len() as int, empty_movie_agg())
}

/// Walks the sibling boxes of `data[off .. end]` outside any `trak`.
pub fn run_walk_movie(data: &Vec<u8>, off: usize, end: usize, agg: MovieAgg) -> (r: Result<
    MovieAgg,
    ParseError,
>)
    requires
        off <= end <= data.len(),
    ensures
        r == walk_movie(data@, off as int, end as int, agg),
    decreases end - off,
{
    if off >= end {
        return Ok(agg);
    }
    let h = match read_box_header(data, off, end) {
        Err(e) => {
            return Err(e);
        },
        Ok(h) => h,
    };
    let pend = h.payload_offset + h.payload_length;
    let step: Result<MovieAgg, ParseError> = if h.type_code == FOURCC_MOOV || h.type_code
        == FOURCC_MDIA || h.type_code == FOURCC_MINF || h.type_code == FOURCC_STBL {
        run_walk_movie(data, h.payload_offset, pend, agg)
    } else if h.type_code == FOURCC_TRAK {
        match run_walk_track(
            data,
            h.payload_offset,
            pend,
            TrackAgg { has_video: false, sample_count: 0, total_sample_bytes: 0 },
        ) {
            Err(e) => Err(e),
            Ok(t) => Ok(
                if t.has_video {
                    MovieAgg {
                        mvhd: agg.mvhd,
                        video: Some(
                            TrackStats {
                                sample_count: t.sample_count,
                                total_sample_bytes: t.total_sample_bytes,
                            },
                        ),
                    }
                } else {
                    agg
                },
            ),
        }
    } else if h.type_code == FOURCC_MVHD {
        match decode_mvhd(data, h.payload_offset, h.payload_length) {
            Err(e) => Err(e),
            Ok(mh) => Ok(MovieAgg { mvhd: Some(mh), video: agg.video }),
        }
    } else {
        Ok(agg)
    };
    match step {
        Err(e) => Err(e),
        Ok(agg2) => run_walk_movie(data, pend, end, agg2),
    }
}

/// Walks the sibling boxes of `data[off .. end]` inside a `trak`.
pub fn run_walk_track(data: &Vec<u8>, off: usize, end: usize, agg: TrackAgg) -> (r: Result<
    TrackAgg,
    ParseError,
>)
    requires
        off <= end <= data.len(),
    ensures
        r == walk_track(data@, off as int, end as int, agg),
    decreases end - off,
{
    if off >= end {
        return Ok(agg);
    }
    let h = match read_box_header(data, off, end) {
        Err(e) => {
            return Err(e);
        },
        Ok(h) => h,
    };
    let pend = h.payload_offset + h.payload_length;
    let step: Result<TrackAgg, ParseError> = if h.type_code == FOURCC_MDIA || h.type_code
        == FOURCC_MINF || h.type_code == FOURCC_STBL {
        run_walk_track(data, h.payload_offset, pend, agg)
    } else if h.type_code == FOURCC_TKHD {
        match decode_tkhd(data, h.payload_offset, h.payload_length) {
            Err(e) => Err(e),
            Ok(_) => Ok(agg),
        }
    } else if h.type_code == FOURCC_STTS {
        match decode_stts(data, h.payload_offset, h.payload_length) {
            Err(e) => Err(e),
            Ok(n) => Ok(
                TrackAgg {
                    has_video: agg.has_video,
                    sample_count: n,
                    total_sample_bytes: agg.total_sample_bytes,
                },
            ),
        }
    } else if h.type_code == FOURCC_STSD {
        match decode_stsd(data, h.payload_offset, h.payload_length) {
            Err(e) => Err(e),
            Ok(v) => Ok(
                TrackAgg {
                    has_video: agg.has_video || v,
                    sample_count: agg.sample_count,
                    total_sample_bytes: agg.total_sample_bytes,
                },
            ),
        }
    } else if h.type_code == FOURCC_STSZ {
        match decode_stsz(data, h.payload_offset, h.payload_length) {
            Err(e) => Err(e),
            Ok(b) => Ok(
                TrackAgg {
                    has_video: agg.has_video,
                    sample_count: agg.sample_count,
                    total_sample_bytes: b,
                },
            ),
        }
    } else {
        Ok(agg)
    };
    match step {
        Err(e) => Err(e),
        Ok(agg2) => run_walk_track(data, pend, end, agg2),
    }
}

/// Extracts the movie state from a whole byte source.
pub fn parse_movie(data: &Vec<u8>) -> (r: Result<MovieAgg, ParseError>)
    ensures
        r == movie_of(data@),
{
    run_walk_movie(data, 0, data.len(), MovieAgg { mvhd: None, video: None })
}

/// The stats of the movie's video track, for callers that treat its
/// absence as a reportable condition. The summary builder itself absorbs
/// the absence instead, zeroing the derived fields.
pub fn video_track_stats(agg: &MovieAgg) -> (r: Result<TrackStats, ParseError>)
    ensures
        agg.video matches Some(t) ==> r == Ok::<TrackStats, ParseError>(t),
        agg.video is None ==> r == Err::<TrackStats, ParseError>(ParseError::MissingVideoTrack),
{
    match agg.video {
        Some(t) => Ok(t),
        None => Err(ParseError::MissingVideoTrack),
    }
}

/// An unrecognized box outside a `trak` is skipped whole: the walk of a
/// sibling stream that starts with it equals the walk of the stream behind
/// it, with the running state untouched. One vendor or otherwise exotic box
/// therefore never breaks the parsing of its sibling boxes.
pub proof fn lemma_unknown_movie_box_skipped(
    s: Seq<u8>,
    off: int,
    end: int,
    agg: MovieAgg,
    h: crate::boxes::BoxHeaderView,
)
    requires
        0 <= off <= end <= s.len(),
        box_at(s, off, end) == Ok::<crate::boxes::BoxHeaderView, ParseError>(h),
        h.type_code != FOURCC_MOOV,
        h.type_code != FOURCC_MDIA,
        h.type_code != FOURCC_MINF,
        h.type_code != FOURCC_STBL,
        h.type_code != FOURCC_TRAK,
        h.type_code != FOURCC_MVHD,
    ensures
        walk_movie(s, off, end, agg) == walk_movie(s, off + h.size, end, agg),
{
}

/// The same tolerance policy inside a `trak`: an unrecognized box between
/// recognized siblings (a vendor metadata box between `tkhd` and `stts`,
/// say) leaves the walk of the remaining siblings unchanged.
pub proof fn lemma_unknown_track_box_skipped(
    s: Seq<u8>,
    off: int,
    end: int,
    agg: TrackAgg,
    h: crate::boxes::BoxHeaderView,
)
    requires
        0 <= off <= end <= s.len(),
        box_at(s, off, end) == Ok::<crate::boxes::BoxHeaderView, ParseError>(h),
        h.type_code != FOURCC_MDIA,
        h.type_code != FOURCC_MINF,
        h.type_code != FOURCC_STBL,
        h.type_code != FOURCC_TKHD,
        h.type_code != FOURCC_STTS,
        h.type_code != FOURCC_STSD,
        h.type_code != FOURCC_STSZ,
    ensures
        walk_track(s, off, end, agg) == walk_track(s, off + h.size, end, agg),
{
}

} // verus!
