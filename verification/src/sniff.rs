//! Content sniffing: a file is accepted only when an external format
//! classifier recognizes its bytes as the MP4 video media type.

use vstd::prelude::*;
use crate::bytes::bytes_equal;

verus! {

/// The media type that the external classifier assigns to a byte source.
/// The classification reads nothing but the bytes, so it is a function of
/// them alone; what it computes stays unspecified.
pub uninterp spec fn sniffed_media_type(b: Seq<u8>) -> Seq<u8>;

/// Relies on `file_format::FileFormat::from_bytes` followed by
/// `media_type`: the detection runs over an in-memory cursor on the given
/// bytes and nothing else, so the returned media-type string depends on
/// the bytes alone.
#[verifier::external_body]
fn sniff_media_type(data: &Vec<u8>) -> (r: Vec<u8>)
    ensures
        r@ == sniffed_media_type(data@),
{
    file_format::FileFormat::from_bytes(data.as_slice()).media_type().as_bytes().to_vec()
}

/// The ASCII bytes of "video/mp4", the one accepted media type.
pub open spec fn mp4_video_media_type() -> Seq<u8> {
    seq![0x76u8, 0x69u8, 0x64u8, 0x65u8, 0x6Fu8, 0x2Fu8, 0x6Du8, 0x70u8, 0x34u8]
}

/// Whether the classifier recognizes `data` as an MP4 video container.
pub fn is_mp4_video(data: &Vec<u8>) -> (r: bool)
    ensures
        r == (sniffed_media_type(data@) == mp4_video_media_type()),
{
    let mt = sniff_media_type(data);
    let mut expected: Vec<u8> = Vec::new();
    expected.push(0x76);
    expected.push(0x69);
    expected.push(0x64);
    expected.push(0x65);
    expected.push(0x6F);
    expected.push(0x2F);
    expected.push(0x6D);
    expected.push(0x70);
    expected.push(0x34);
    proof {
        assert(expected@ =~= mp4_video_media_type());
    }
    bytes_equal(&mt, &expected)
}

} // verus!
