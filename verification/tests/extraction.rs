//! End-to-end tests: whole container fixtures through the summary builder
//! and the batch layer, with the real format classifier linked in.

use mp4csv::batch::{process_files, FileInput};
use mp4csv::errors::ParseError;
use mp4csv::ratio::ratio_equals_int;
use mp4csv::video::VideoInfo;
use mp4csv::walk::{parse_movie, video_track_stats};

fn be32(v: u32) -> [u8; 4] {
    v.to_be_bytes()
}

fn be64(v: u64) -> [u8; 8] {
    v.to_be_bytes()
}

/// A box with the given type code around the given payload.
fn boxed(type_code: &[u8; 4], payload: &[u8]) -> Vec<u8> {
    let mut out = Vec::new();
    out.extend_from_slice(&be32(8 + payload.len() as u32));
    out.extend_from_slice(type_code);
    out.extend_from_slice(payload);
    out
}

fn concat(parts: &[Vec<u8>]) -> Vec<u8> {
    let mut out = Vec::new();
    for p in parts {
        out.extend_from_slice(p);
    }
    out
}

fn ftyp() -> Vec<u8> {
    let mut p = Vec::new();
    p.extend_from_slice(b"isom");
    p.extend_from_slice(&be32(0));
    boxed(b"ftyp", &p)
}

fn mvhd_v0(creation: u32, modification: u32, timescale: u32, duration: u32) -> Vec<u8> {
    let mut p = vec![0u8, 0, 0, 0];
    p.extend_from_slice(&be32(creation));
    p.extend_from_slice(&be32(modification));
    p.extend_from_slice(&be32(timescale));
    p.extend_from_slice(&be32(duration));
    p.extend_from_slice(&be32(0x0001_0000)); // rate
    boxed(b"mvhd", &p)
}

fn mvhd_v1(creation: u64, modification: u64, timescale: u32, duration: u64) -> Vec<u8> {
    let mut p = vec![1u8, 0, 0, 0];
    p.extend_from_slice(&be64(creation));
    p.extend_from_slice(&be64(modification));
    p.extend_from_slice(&be32(timescale));
    p.extend_from_slice(&be64(duration));
    p.extend_from_slice(&be32(0x0001_0000));
    boxed(b"mvhd", &p)
}

fn tkhd_v0(track_id: u32) -> Vec<u8> {
    let mut p = vec![0u8, 0, 0, 0];
    p.extend_from_slice(&be32(0));
    p.extend_from_slice(&be32(0));
    p.extend_from_slice(&be32(track_id));
    p.extend_from_slice(&be32(0)); // reserved
    boxed(b"tkhd", &p)
}

/// The handler box the external classifier consults to tell a video file
/// from an audio one.
fn hdlr(handler: &[u8; 4]) -> Vec<u8> {
    let mut p = vec![0u8, 0, 0, 0];
    p.extend_from_slice(&be32(0)); // pre-defined
    p.extend_from_slice(handler);
    boxed(b"hdlr", &p)
}

fn stsd(entry_type: &[u8; 4]) -> Vec<u8> {
    let mut p = vec![0u8, 0, 0, 0];
    p.extend_from_slice(&be32(1)); // entry count
    p.extend_from_slice(&be32(8));
    p.extend_from_slice(entry_type);
    boxed(b"stsd", &p)
}

fn stts(entries: &[(u32, u32)]) -> Vec<u8> {
    let mut p = vec![0u8, 0, 0, 0];
    p.extend_from_slice(&be32(entries.len() as u32));
    for (count, delta) in entries {
        p.extend_from_slice(&be32(*count));
        p.extend_from_slice(&be32(*delta));
    }
    boxed(b"stts", &p)
}

fn stsz_fixed(sample_size: u32, sample_count: u32) -> Vec<u8> {
    let mut p = vec![0u8, 0, 0, 0];
    p.extend_from_slice(&be32(sample_size));
    p.extend_from_slice(&be32(sample_count));
    boxed(b"stsz", &p)
}

/// A complete single-video-track container around the given movie header.
fn video_container(mvhd: Vec<u8>, entry_type: &[u8; 4], stts_box: Vec<u8>) -> Vec<u8> {
    let stbl = boxed(
        b"stbl",
        &concat(&[stsd(entry_type), stts_box, stsz_fixed(1000, 300)]),
    );
    let minf = boxed(b"minf", &stbl);
    let mdia = boxed(b"mdia", &concat(&[hdlr(b"vide"), minf]));
    let trak = boxed(b"trak", &concat(&[tkhd_v0(1), mdia]));
    let moov = boxed(b"moov", &concat(&[mvhd, trak]));
    concat(&[ftyp(), moov])
}

#[test]
fn full_pipeline_version0() {
    let data = video_container(
        mvhd_v0(2_082_844_800 + 1_000, 2_082_844_800 + 2_000, 1_000, 5_000),
        b"avc1",
        stts(&[(300, 512)]),
    );
    let v = VideoInfo::from("clip.mp4", &data).unwrap();
    assert_eq!(v.filename, "clip.mp4");
    assert_eq!(v.size_bytes, data.len() as u64);
    assert_eq!(v.creation_time, Some(1_000));
    assert_eq!(v.modification_time, Some(2_000));
    assert!(ratio_equals_int(&v.duration, 5));
    // 300 samples over 5 seconds
    assert!(ratio_equals_int(&v.fps, 60));
    // 300 samples of 1000 bytes: 2_400_000 bits over 5 s = 480 kbit/s
    assert!(ratio_equals_int(&v.bitrate_kbps, 480));
}

#[test]
fn full_pipeline_version1() {
    let data = video_container(
        mvhd_v1(2_082_844_800 + 10, 2_082_844_800 + 20, 90_000, 450_000),
        b"avc1",
        stts(&[(300, 512)]),
    );
    let v = VideoInfo::from("camera.mp4", &data).unwrap();
    assert_eq!(v.creation_time, Some(10));
    assert_eq!(v.modification_time, Some(20));
    assert!(ratio_equals_int(&v.duration, 5));
    assert!(ratio_equals_int(&v.fps, 60));
}

#[test]
fn placeholder_timestamps_become_unknown() {
    let data = video_container(mvhd_v0(0, 0, 1_000, 5_000), b"avc1", stts(&[(300, 512)]));
    let v = VideoInfo::from("old.mp4", &data).unwrap();
    assert_eq!(v.creation_time, None);
    assert_eq!(v.modification_time, None);
}

#[test]
fn round_trip_300_samples_over_10_seconds_is_30_fps() {
    let data = video_container(
        mvhd_v0(2_082_844_800, 2_082_844_800, 1_000, 10_000),
        b"avc1",
        stts(&[(100, 512), (200, 512)]),
    );
    let v = VideoInfo::from("steady.mp4", &data).unwrap();
    assert!(ratio_equals_int(&v.duration, 10));
    assert!(ratio_equals_int(&v.fps, 30));
    assert_eq!(v.fps.num as f64 / v.fps.den as f64, 30.0);
}

#[test]
fn no_video_codec_yields_zero_rates_not_error() {
    // The handler still says video, so the classifier accepts the file,
    // but no recognized video codec entry appears in the sample
    // description: the derived fields default to zero.
    let data = video_container(
        mvhd_v0(2_082_844_800, 2_082_844_800, 1_000, 5_000),
        b"hvc1",
        stts(&[(300, 512)]),
    );
    let v = VideoInfo::from("other-codec.mp4", &data).unwrap();
    assert!(ratio_equals_int(&v.duration, 5));
    assert!(ratio_equals_int(&v.fps, 0));
    assert!(ratio_equals_int(&v.bitrate_kbps, 0));
    assert_eq!(v.fps.num as f64 / v.fps.den as f64, 0.0);
}

#[test]
fn zero_duration_yields_zero_rates_not_error() {
    let data = video_container(
        mvhd_v0(2_082_844_800, 2_082_844_800, 1_000, 0),
        b"avc1",
        stts(&[(300, 512)]),
    );
    let v = VideoInfo::from("empty.mp4", &data).unwrap();
    assert!(ratio_equals_int(&v.duration, 0));
    assert!(ratio_equals_int(&v.fps, 0));
    assert!(ratio_equals_int(&v.bitrate_kbps, 0));
}

#[test]
fn unknown_boxes_interleaved_are_skipped() {
    // A vendor metadata box between tkhd and the sample tables, and
    // another one at the top level, must not break the extraction.
    let vendor = boxed(b"xyzV", &[0xAB; 11]);
    let stbl = boxed(
        b"stbl",
        &concat(&[
            stsd(b"avc1"),
            stts(&[(100, 512), (200, 512)]),
            stsz_fixed(1000, 300),
        ]),
    );
    let minf = boxed(b"minf", &stbl);
    let mdia = boxed(b"mdia", &concat(&[hdlr(b"vide"), minf]));
    let trak = boxed(b"trak", &concat(&[tkhd_v0(1), vendor.clone(), mdia]));
    let moov = boxed(
        b"moov",
        &concat(&[
            mvhd_v0(2_082_844_800, 2_082_844_800, 1_000, 10_000),
            trak,
        ]),
    );
    let data = concat(&[ftyp(), vendor, moov]);
    let v = VideoInfo::from("vendor.mp4", &data).unwrap();
    assert!(ratio_equals_int(&v.fps, 30));
    assert!(ratio_equals_int(&v.duration, 10));
}

#[test]
fn not_a_container_is_unsupported_format() {
    let data = vec![0x50u8; 64];
    assert_eq!(
        VideoInfo::from("noise.bin", &data).err(),
        Some(ParseError::UnsupportedFormat)
    );
}

#[test]
fn oversized_child_is_corrupt_container() {
    // The child declares more bytes than its parent holds.
    let mdia = boxed(b"mdia", &hdlr(b"vide"));
    let trak = boxed(b"trak", &concat(&[tkhd_v0(1), mdia]));
    let mut liar = Vec::new();
    liar.extend_from_slice(&be32(0x0000_4000));
    liar.extend_from_slice(b"stts");
    let moov = boxed(
        b"moov",
        &concat(&[
            mvhd_v0(2_082_844_800, 2_082_844_800, 1_000, 5_000),
            trak,
            liar,
        ]),
    );
    let data = concat(&[ftyp(), moov]);
    assert_eq!(
        VideoInfo::from("liar.mp4", &data).err(),
        Some(ParseError::CorruptContainer)
    );
}

#[test]
fn truncated_movie_header_is_truncated_input() {
    let short_mvhd = boxed(b"mvhd", &[0u8, 0, 0, 0]);
    let mdia = boxed(b"mdia", &hdlr(b"vide"));
    let trak = boxed(b"trak", &concat(&[tkhd_v0(1), mdia]));
    let moov = boxed(b"moov", &concat(&[short_mvhd, trak]));
    let data = concat(&[ftyp(), moov]);
    assert_eq!(
        VideoInfo::from("short.mp4", &data).err(),
        Some(ParseError::TruncatedInput)
    );
}

#[test]
fn container_without_movie_header_is_corrupt() {
    let mdia = boxed(b"mdia", &hdlr(b"vide"));
    let trak = boxed(b"trak", &concat(&[tkhd_v0(1), mdia]));
    let moov = boxed(b"moov", &trak);
    let data = concat(&[ftyp(), moov]);
    assert_eq!(
        VideoInfo::from("headless.mp4", &data).err(),
        Some(ParseError::CorruptContainer)
    );
}

#[test]
fn missing_video_track_reported_by_accessor() {
    let data = video_container(
        mvhd_v0(2_082_844_800, 2_082_844_800, 1_000, 5_000),
        b"hvc1",
        stts(&[(300, 512)]),
    );
    let agg = parse_movie(&data).unwrap();
    assert_eq!(
        video_track_stats(&agg),
        Err(ParseError::MissingVideoTrack)
    );

    let with_video = video_container(
        mvhd_v0(2_082_844_800, 2_082_844_800, 1_000, 5_000),
        b"avc1",
        stts(&[(300, 512)]),
    );
    let agg = parse_movie(&with_video).unwrap();
    let stats = video_track_stats(&agg).unwrap();
    assert_eq!(stats.sample_count, 300);
    assert_eq!(stats.total_sample_bytes, 300_000);
}

#[test]
fn default_record_is_all_zero() {
    let v = VideoInfo::default();
    assert_eq!(v.filename, "");
    assert_eq!(v.size_bytes, 0);
    assert_eq!(v.creation_time, None);
    assert_eq!(v.modification_time, None);
    assert!(ratio_equals_int(&v.duration, 0));
    assert!(ratio_equals_int(&v.bitrate_kbps, 0));
    assert!(ratio_equals_int(&v.fps, 0));
}

#[test]
fn batch_isolates_the_one_bad_file() {
    let good1 = video_container(
        mvhd_v0(2_082_844_800, 2_082_844_800, 1_000, 10_000),
        b"avc1",
        stts(&[(300, 512)]),
    );
    let bad = vec![0x50u8; 32];
    let good2 = video_container(
        mvhd_v0(2_082_844_800, 2_082_844_800, 1_000, 5_000),
        b"avc1",
        stts(&[(300, 512)]),
    );
    let inputs = vec![
        FileInput { filename: "a.mp4".to_string(), data: good1 },
        FileInput { filename: "b.bin".to_string(), data: bad },
        FileInput { filename: "c.mp4".to_string(), data: good2 },
    ];
    let out = process_files(&inputs);
    assert_eq!(out.files_processed, 2);
    assert_eq!(out.records.len(), 2);
    assert_eq!(out.records[0].filename, "a.mp4");
    assert_eq!(out.records[1].filename, "c.mp4");
    assert!(ratio_equals_int(&out.records[0].fps, 30));
    assert!(ratio_equals_int(&out.records[1].fps, 60));
    assert_eq!(out.failures.len(), 1);
    assert_eq!(out.failures[0].filename, "b.bin");
    assert_eq!(out.failures[0].error, ParseError::UnsupportedFormat);
}

#[test]
fn batch_of_all_good_files_keeps_order() {
    let mut inputs = Vec::new();
    for (name, dur) in [("one.mp4", 1_000u32), ("two.mp4", 2_000), ("three.mp4", 3_000)] {
        inputs.push(FileInput {
            filename: name.to_string(),
            data: video_container(
                mvhd_v0(2_082_844_800, 2_082_844_800, 1_000, dur),
                b"avc1",
                stts(&[(30, 512)]),
            ),
        });
    }
    let out = process_files(&inputs);
    assert_eq!(out.files_processed, 3);
    assert!(out.failures.is_empty());
    let names: Vec<&str> = out.records.iter().map(|r| r.filename.as_str()).collect();
    assert_eq!(names, vec!["one.mp4", "two.mp4", "three.mp4"]);
}
