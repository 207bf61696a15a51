//! The error taxonomy of the parser and its surrounding layers.

use vstd::prelude::*;

verus! {

/// Everything that can go wrong while reading one container file.
///
/// Box-level and header-level errors abort parsing of the current file only;
/// the batch layer records them against that file's path and continues.
#[derive(Clone, Copy, Debug, PartialEq, Eq, Structural)]
pub enum ParseError {
    /// Fewer bytes remain than a box header (or a fixed-layout field) declares.
    TruncatedInput,
    /// A non-extended box size below the minimum header length of 8 bytes,
    /// or an extended size below its minimum header length of 16 bytes.
    InvalidBoxSize,
    /// A box whose declared size overruns the bounds of its parent, an
    /// unsupported header version, or a container without a movie header.
    CorruptContainer,
    /// The file is not a recognized MP4 video container.
    UnsupportedFormat,
    /// No track with a recognized video codec entry was found. Non-fatal:
    /// the summary record absorbs it by zeroing the derived fields.
    MissingVideoTrack,
    /// Arithmetic underflow converting a stored timestamp to the UNIX epoch.
    ClockConversionError,
}

} // verus!
