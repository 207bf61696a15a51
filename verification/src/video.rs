//! The per-file summary record and the pipeline that builds it: sniff the
//! media type, walk the box tree, interpret the movie header and the video
//! track's sample tables, and derive the timing statistics.

use vstd::prelude::*;
use vstd::string::StringExecFns;
use crate::convert::{mp4time_to_unix_time, unix_time_of};
use crate::errors::ParseError;
use crate::headers::MovieHeader;
use crate::ratio::{
    bitrate_ratio, duration_ratio, fps_ratio, make_bitrate_ratio, make_duration_ratio,
    make_fps_ratio, zero_ratio, Ratio, RatioView,
};
use crate::sniff::{is_mp4_video, mp4_video_media_type, sniffed_media_type};
use crate::walk::{movie_of, parse_movie, TrackStats};

verus! {

/// Everything the extraction reports about one container file. Immutable
/// once built; one record per successfully parsed input file.
#[derive(Debug, Clone)]
pub struct VideoInfo {
    /// The name of the file.
    pub filename: String,
    /// The size of the file in bytes.
    pub size_bytes: u64,
    /// Creation time as UNIX-epoch seconds, `None` for the "unknown"
    /// sentinel of an underflowing stored timestamp.
    pub creation_time: Option<u64>,
    /// Modification time as UNIX-epoch seconds, with the same sentinel.
    pub modification_time: Option<u64>,
    /// Presentation length in seconds, as an exact rational.
    pub duration: Ratio,
    /// Bitrate in kilobits per second, as an exact rational.
    pub bitrate_kbps: Ratio,
    /// Frame rate in frames per second, as an exact rational.
    pub fps: Ratio,
}

/// The mathematical image of a summary record.
pub ghost struct VideoInfoView {
    pub filename: Seq<char>,
    pub size_bytes: int,
    pub creation_time: Option<int>,
    pub modification_time: Option<int>,
    pub duration: RatioView,
    pub bitrate_kbps: RatioView,
    pub fps: RatioView,
}

impl View for VideoInfo {
    type V = VideoInfoView;

    open spec fn view(&self) -> VideoInfoView {
        VideoInfoView {
            filename: self.filename@,
            size_bytes: self.size_bytes as int,
            creation_time: match self.creation_time {
                Some(t) => Some(t as int),
                None => None,
            },
            modification_time: match self.modification_time {
                Some(t) => Some(t as int),
                None => None,
            },
            duration: self.duration@,
            bitrate_kbps: self.bitrate_kbps@,
            fps: self.fps@,
        }
    }
}

/// The summary record owed for a file of `len` bytes whose walk produced
/// the movie header `h` and, possibly, a video track `video`.
pub open spec fn summary_of(
    name: Seq<char>,
    len: int,
    h: MovieHeader,
    video: Option<TrackStats>,
) -> VideoInfoView {
    VideoInfoView {
        filename: name,
        size_bytes: len,
        creation_time: unix_time_of(h.creation_time as int),
        modification_time: unix_time_of(h.modification_time as int),
        duration: duration_ratio(h.duration as int, h.timescale as int),
        bitrate_kbps: bitrate_ratio(video, h.duration as int, h.timescale as int),
        fps: fps_ratio(video, h.duration as int, h.timescale as int),
    }
}

/// What extracting one file named `name` with contents `s` owes: the
/// record of `summary_of` when the bytes sniff as MP4 video and the box
/// walk yields a movie header, and otherwise exactly the error of the
/// stage that rejected them — `UnsupportedFormat` for a foreign media
/// type, the walker's own error for a malformed tree, `CorruptContainer`
/// for a container without a movie header.
pub open spec fn video_info_of(name: Seq<char>, s: Seq<u8>) -> Result<VideoInfoView, ParseError> {
    if sniffed_media_type(s) != mp4_video_media_type() {
        Err(ParseError::UnsupportedFormat)
    } else {
        match movie_of(s) {
            Err(e) => Err(e),
            Ok(agg) => match agg.mvhd {
                None => Err(ParseError::CorruptContainer),
                Some(h) => Ok(summary_of(name, s.len() as int, h, agg.video)),
            },
        }
    }
}

impl Default for VideoInfo {
    /// The record all fields start from: an empty name, zero size, unknown
    /// timestamps, and zero for every derived statistic.
    fn default() -> (r: Self)
        ensures
            r@.filename == Seq::<char>::empty(),
            r@.size_bytes == 0,
            r@.creation_time is None,
            r@.modification_time is None,
            r@.duration == zero_ratio(),
            r@.bitrate_kbps == zero_ratio(),
            r@.fps == zero_ratio(),
    {
        let out = VideoInfo {
            filename: String::new(),
            size_bytes: 0,
            creation_time: None,
            modification_time: None,
            duration: Ratio { num: 0, den: 1 },
            bitrate_kbps: Ratio { num: 0, den: 1 },
            fps: Ratio { num: 0, den: 1 },
        };
        proof {
            assert(out@.filename =~= Seq::<char>::empty());
        }
        out
    }
}

impl VideoInfo {
    /// Builds the summary record of one file from its name and its bytes.
    pub fn from(filename: &str, data: &Vec<u8>) -> (r: Result<VideoInfo, ParseError>)
        ensures
            match r {
                Ok(v) => video_info_of(filename@, data@) == Ok::<VideoInfoView, ParseError>(v@),
                Err(e) => video_info_of(filename@, data@) == Err::<VideoInfoView, ParseError>(e),
            },
    {
        if !is_mp4_video(data) {
            return Err(ParseError::UnsupportedFormat);
        }
        let agg = match parse_movie(data) {
            Err(e) => {
                return Err(e);
            },
            Ok(agg) => agg,
        };
        let h = match agg.mvhd {
            None => {
                return Err(ParseError::CorruptContainer);
            },
            Some(h) => h,
        };
        Ok(
            VideoInfo {
                filename: String::from_str(filename),
                size_bytes: data.len() as u64,
                creation_time: mp4time_to_unix_time(h.creation_time),
                modification_time: mp4time_to_unix_time(h.modification_time),
                duration: make_duration_ratio(h.duration, h.timescale),
                bitrate_kbps: make_bitrate_ratio(agg.video, h.duration, h.timescale),
                fps: make_fps_ratio(agg.video, h.duration, h.timescale),
            },
        )
    }
}

} // verus!
