use vstd::prelude::*;
use crate::frame::{ConvertError, JpegFrame, RawFrame, RawImage};
use crate::layout::{normalize, normalize_result, input_len, Normalized};

verus! {

/// The JPEG quality used when none is configured.
pub const DEFAULT_QUALITY: u8 = 90;

/// The highest JPEG quality.
pub const MAX_QUALITY: u8 = 100;

/// Picks the JPEG quality from an optional configured value: the default when
/// there is none, the value itself when it is at most 100, and an error otherwise.
pub fn select_quality(configured: Option<u64>) -> (r: Result<u8, ConvertError>)
    ensures
        configured is None ==> r == Ok::<u8, ConvertError>(DEFAULT_QUALITY),
        configured is Some && configured->0 <= 100 ==> r == Ok::<u8, ConvertError>(configured->0 as u8),
        configured is Some && configured->0 > 100 ==> r == Err::<u8, ConvertError>(ConvertError::InvalidQuality(configured->0)),
{
    match configured {
        None => Ok(DEFAULT_QUALITY),
        Some(q) => {
            if q <= MAX_QUALITY as u64 {
                Ok(q as u8)
            } else {
                Err(ConvertError::InvalidQuality(q))
            }
        }
    }
}

/// A frame whose pixels are ready for the codec, with the header it came with.
#[derive(Debug)]
pub struct PreparedFrame {
    pub header: Option<make87_messages::core::Header>,
    pub normalized: Normalized,
}

/// Whether `prepare` gives this result for `frame`.
pub open spec fn prepare_result(frame: RawFrame, r: Result<PreparedFrame, ConvertError>) -> bool {
    match frame.image {
        None => r == Err::<PreparedFrame, ConvertError>(ConvertError::UnsupportedLayout),
        Some(img) => {
            let n = match r {
                Ok(p) => Ok::<Normalized, ConvertError>(p.normalized),
                Err(e) => Err::<Normalized, ConvertError>(e),
            };
            &&& normalize_result(img, n)
            &&& r is Ok ==> r->Ok_0.header == frame.header
        },
    }
}

/// Takes a frame apart for the codec: fails with `UnsupportedLayout` when it holds no
/// image, passes on the error of `normalize`, and otherwise keeps the header beside
/// the normalized pixels.
pub fn prepare(frame: RawFrame) -> (r: Result<PreparedFrame, ConvertError>)
    ensures
        prepare_result(frame, r),
{
    let RawFrame { header, image } = frame;
    match image {
        None => Err(ConvertError::UnsupportedLayout),
        Some(img) => match normalize(img) {
            Ok(normalized) => Ok(PreparedFrame { header, normalized }),
            Err(e) => Err(e),
        },
    }
}

/// Whether a byte string begins with the JPEG start-of-image marker `FF D8`.
pub open spec fn starts_with_soi(b: Seq<u8>) -> bool {
    b.len() >= 2 && b[0] == 0xFF && b[1] == 0xD8
}

/// Whether `finish` gives this result for a header and what the codec returned.
pub open spec fn finish_result(
    header: Option<make87_messages::core::Header>,
    encoded: Result<Vec<u8>, String>,
    r: Result<JpegFrame, ConvertError>,
) -> bool {
    match encoded {
        Err(m) => r == Err::<JpegFrame, ConvertError>(ConvertError::EncodeFailure(m)),
        Ok(b) => if starts_with_soi(b@) {
            r == Ok::<JpegFrame, ConvertError>(JpegFrame { header, data: b })
        } else {
            r is Err && r->Err_0 is EncodeFailure
        },
    }
}

/// Builds the output frame from the header and the codec's result. A codec
/// failure becomes `EncodeFailure`, and so do bytes that do not open with the
/// start-of-image marker.
pub fn finish(
    header: Option<make87_messages::core::Header>,
    encoded: Result<Vec<u8>, String>,
) -> (r: Result<JpegFrame, ConvertError>)
    ensures
        finish_result(header, encoded, r),
{
    match encoded {
        Err(m) => Err(ConvertError::EncodeFailure(m)),
        Ok(data) => {
            if data.len() >= 2 && data[0] == 0xFF && data[1] == 0xD8 {
                Ok(JpegFrame { header, data })
            } else {
                Err(ConvertError::EncodeFailure(String::from_str("codec output lacks the JPEG start-of-image marker")))
            }
        },
    }
}

} // verus!
