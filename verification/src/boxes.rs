//! The box reader: one length-prefixed, type-tagged header at a time.

use vstd::prelude::*;
use crate::bytes::{be32, be64, read_be32, read_be64};
use crate::errors::ParseError;

verus! {

/// Four-character type codes of the boxes the walker recognizes, each as the
/// 32-bit big-endian value of its ASCII bytes.
pub const FOURCC_MOOV: u32 = 0x6D6F6F76;
pub const FOURCC_TRAK: u32 = 0x7472616B;
pub const FOURCC_MDIA: u32 = 0x6D646961;
pub const FOURCC_MINF: u32 = 0x6D696E66;
pub const FOURCC_STBL: u32 = 0x7374626C;
pub const FOURCC_MVHD: u32 = 0x6D766864;
pub const FOURCC_TKHD: u32 = 0x746B6864;
pub const FOURCC_STTS: u32 = 0x73747473;
pub const FOURCC_STSD: u32 = 0x73747364;
pub const FOURCC_STSZ: u32 = 0x7374737A;
pub const FOURCC_AVC1: u32 = 0x61766331;

/// One parsed box header: its type code, its total size (header included),
/// and the byte range of its own payload.
#[derive(Clone, Copy, Debug, PartialEq, Eq, Structural)]
pub struct BoxHeader {
    /// The 4-character type code, as a 32-bit big-endian value.
    pub type_code: u32,
    /// Total byte length of the box, header included.
    pub size: u64,
    /// Offset of the first payload byte, within the whole source.
    pub payload_offset: usize,
    /// Byte length of the payload.
    pub payload_length: usize,
}

/// The mathematical image of a parsed box header.
pub ghost struct BoxHeaderView {
    pub type_code: int,
    pub size: int,
    pub payload_offset: int,
    pub payload_length: int,
}

impl View for BoxHeader {
    type V = BoxHeaderView;

    open spec fn view(&self) -> BoxHeaderView {
        BoxHeaderView {
            type_code: self.type_code as int,
            size: self.size as int,
            payload_offset: self.payload_offset as int,
            payload_length: self.payload_length as int,
        }
    }
}

/// The box header that starts at offset `off` of `s`, bounded by its
/// enclosing container's end `end`.
///
/// A 4-byte big-endian size is followed by a 4-byte type code. A size of 1
/// announces an 8-byte extended size right after the type code; a size of 0
/// lets the box extend to the end of the enclosing container. Fewer bytes
/// than the header requires yield `TruncatedInput`; a declared size below
/// the header's own length yields `InvalidBoxSize`; a declared size that
/// overruns the enclosing bounds yields `CorruptContainer`.
pub open spec fn box_at(s: Seq<u8>, off: int, end: int) -> Result<BoxHeaderView, ParseError>
    recommends
        0 <= off <= end <= s.len(),
{
    if end - off < 8 {
        Err(ParseError::TruncatedInput)
    } else {
        let size32 = be32(s, off);
        let typ = be32(s, off + 4);
        if size32 == 1 {
            if end - off < 16 {
                Err(ParseError::TruncatedInput)
            } else {
                let big = be64(s, off + 8);
                if big < 16 {
                    Err(ParseError::InvalidBoxSize)
                } else if off + big > end {
                    Err(ParseError::CorruptContainer)
                } else {
                    Ok(BoxHeaderView {
                        type_code: typ,
                        size: big,
                        payload_offset: off + 16,
                        payload_length: big - 16,
                    })
                }
            }
        } else if size32 == 0 {
            Ok(BoxHeaderView {
                type_code: typ,
                size: end - off,
                payload_offset: off + 8,
                payload_length: end - off - 8,
            })
        } else if size32 < 8 {
            Err(ParseError::InvalidBoxSize)
        } else if off + size32 > end {
            Err(ParseError::CorruptContainer)
        } else {
            Ok(BoxHeaderView {
                type_code: typ,
                size: size32,
                payload_offset: off + 8,
                payload_length: size32 - 8,
            })
        }
    }
}

/// Reads exactly one box header starting at `off`, never past `end`.
///
/// On success the header's payload range lies between `off + 8` and `end`,
/// and the box occupies at least 8 bytes, so a walker that advances by
/// `payload_offset + payload_length` makes progress and stays in bounds.
pub fn read_box_header(data: &Vec<u8>, off: usize, end: usize) -> (r: Result<
    BoxHeader,
    ParseError,
>)
    requires
        off <= end <= data.len(),
    ensures
        match r {
            Ok(h) => {
                &&& box_at(data@, off as int, end as int) == Ok::<BoxHeaderView, ParseError>(h@)
                &&& off + 8 <= h.payload_offset
                &&& h.payload_offset + h.payload_length == off + h.size
                &&& h.payload_offset + h.payload_length <= end
                &&& h.size >= 8
            },
            Err(e) => box_at(data@, off as int, end as int) == Err::<BoxHeaderView, ParseError>(e),
        },
{
    if end - off < 8 {
        return Err(ParseError::TruncatedInput);
    }
    let size32 = read_be32(data, off);
    let typ = read_be32(data, off + 4);
    if size32 == 1 {
        if end - off < 16 {
            return Err(ParseError::TruncatedInput);
        }
        let big = read_be64(data, off + 8);
        if big < 16 {
            return Err(ParseError::InvalidBoxSize);
        }
        if big > (end - off) as u64 {
            return Err(ParseError::CorruptContainer);
        }
        Ok(BoxHeader {
            type_code: typ,
            size: big,
            payload_offset: off + 16,
            payload_length: (big as usize) - 16,
        })
    } else if size32 == 0 {
        Ok(BoxHeader {
            type_code: typ,
            size: (end - off) as u64,
            payload_offset: off + 8,
            payload_length: end - off - 8,
        })
    } else if size32 < 8 {
        Err(ParseError::InvalidBoxSize)
    } else if size32 as u64 > (end - off) as u64 {
        Err(ParseError::CorruptContainer)
    } else {
        Ok(BoxHeader {
            type_code: typ,
            size: size32 as u64,
            payload_offset: off + 8,
            payload_length: (size32 as usize) - 8,
        })
    }
}

} // verus!
