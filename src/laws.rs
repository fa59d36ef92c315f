use vstd::prelude::*;
use crate::convert::{finish_result, prepare_result, starts_with_soi, PreparedFrame};
use crate::frame::{ConvertError, JpegFrame, RawFrame, RawImage};
use crate::layout::{input_len, normalized_pixels};

verus! {

/// Whether `p` is what `prepare` gives for `frame` and `r` the outcome of the
/// conversion: the error of `prepare`, or what `finish` gives for the prepared
/// header and the codec's result `encoded`.
pub open spec fn conversion(
    frame: RawFrame,
    p: Result<PreparedFrame, ConvertError>,
    encoded: Result<Vec<u8>, String>,
    r: Result<JpegFrame, ConvertError>,
) -> bool {
    &&& prepare_result(frame, p)
    &&& match p {
        Ok(q) => finish_result(q.header, encoded, r),
        Err(e) => r == Err::<JpegFrame, ConvertError>(e),
    }
}

/// A frame of any layout whose buffer is as long as its dimensions call for is
/// always prepared; the conversion then succeeds whenever the codec hands back a
/// JPEG bitstream, and every converted frame's data opens with `FF D8`.
pub proof fn lemma_valid_frame_converts(
    frame: RawFrame,
    p: Result<PreparedFrame, ConvertError>,
    encoded: Result<Vec<u8>, String>,
    r: Result<JpegFrame, ConvertError>,
)
    requires
        frame.image is Some,
        frame.image->0.pixels().data@.len() >= input_len(frame.image->0),
        conversion(frame, p, encoded, r),
    ensures
        p is Ok,
        encoded is Ok && starts_with_soi(encoded->Ok_0@) ==> r is Ok,
        r is Ok ==> starts_with_soi(r->Ok_0.data@),
{
}

/// A converted frame carries the header of the frame it came from.
pub proof fn lemma_header_passes_through(
    frame: RawFrame,
    p: Result<PreparedFrame, ConvertError>,
    encoded: Result<Vec<u8>, String>,
    r: Result<JpegFrame, ConvertError>,
)
    requires
        conversion(frame, p, encoded, r),
    ensures
        r is Ok ==> p is Ok && r->Ok_0.header == frame.header,
{
}

/// The bytes of `u` and `v` taken in turn: `u[0], v[0], u[1], v[1], ...`.
pub open spec fn interleave(u: Seq<u8>, v: Seq<u8>) -> Seq<u8> {
    Seq::new(2 * u.len(), |i: int| if i % 2 == 0 { u[i / 2] } else { v[i / 2] })
}

/// De-interleaving an NV12 frame whose chroma plane interleaves `u` and `v` yields
/// the luma plane, then `u`, then `v`.
pub proof fn lemma_nv12_round_trip(img: RawImage, luma: Seq<u8>, u: Seq<u8>, v: Seq<u8>)
    requires
        img is Nv12,
        u.len() == v.len(),
        luma.len() == img.area(),
        img.area() / 2 == 2 * u.len(),
        img.pixels().data@ == luma + interleave(u, v),
    ensures
        normalized_pixels(img) == luma + u + v,
{
    let data = img.pixels().data@;
    let y = luma.len() as int;
    let uv = data.subrange(y, y + y / 2);
    assert(data.subrange(0, y) =~= luma);
    assert(uv =~= interleave(u, v));
    assert(crate::layout::even_bytes(uv) =~= u);
    assert(crate::layout::odd_bytes(uv) =~= v);
}

} // verus!
