//! Extraction of structural and temporal metadata (timestamps, duration,
//! frame rate, bitrate) from ISO base media (MP4-family) container files.
//!
//! The heart of the crate is a verified box/atom parser: a reader for one
//! length-prefixed, type-tagged box header at a time, a walker that descends
//! into container boxes and skips unrecognized ones, and interpreters for the
//! handful of leaf boxes (`mvhd`, `tkhd`, `stts`, `stsd`, `stsz`) needed to
//! build a per-file summary record. On top of it sit an epoch converter for
//! the format's 1904-based timestamps and a batch layer that processes many
//! files while isolating per-file failures.

pub mod errors;
pub mod bytes;
pub mod boxes;
pub mod headers;
pub mod samples;
pub mod walk;
pub mod ratio;
pub mod convert;
pub mod sniff;
pub mod video;
pub mod batch;
