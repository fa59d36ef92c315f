use vstd::prelude::*;

verus! {

/// Declares the metadata header that frames carry; this library never looks inside it.
#[verifier::external_type_specification]
#[verifier::external_body]
pub struct ExHeader(make87_messages::core::Header);

/// Width, height and pixel bytes of one uncompressed image.
#[derive(Debug)]
pub struct RawPixels {
    pub width: u32,
    pub height: u32,
    pub data: Vec<u8>,
}

/// The six pixel layouts a raw frame may come in.
#[derive(Debug)]
pub enum RawImage {
    /// Packed, 3 bytes per pixel, rows without padding.
    Rgb888(RawPixels),
    /// Packed, 4 bytes per pixel, rows without padding.
    Rgba8888(RawPixels),
    /// Planar Y, U, V; chroma subsampled 2x2.
    Yuv420(RawPixels),
    /// Planar Y, U, V; chroma subsampled 2x1.
    Yuv422(RawPixels),
    /// Planar Y, U, V; no chroma subsampling.
    Yuv444(RawPixels),
    /// A Y plane followed by one plane of interleaved U and V, chroma subsampled 2x2.
    Nv12(RawPixels),
}

impl RawImage {
    pub open spec fn pixels(self) -> RawPixels {
        match self {
            RawImage::Rgb888(p) => p,
            RawImage::Rgba8888(p) => p,
            RawImage::Yuv420(p) => p,
            RawImage::Yuv422(p) => p,
            RawImage::Yuv444(p) => p,
            RawImage::Nv12(p) => p,
        }
    }

    /// Number of pixels, `width * height`.
    pub open spec fn area(self) -> int {
        self.pixels().width as int * self.pixels().height as int
    }
}

/// An uncompressed frame: an optional header and, when present, the image.
#[derive(Debug)]
pub struct RawFrame {
    pub header: Option<make87_messages::core::Header>,
    pub image: Option<RawImage>,
}

/// A compressed frame: the header of the frame it came from and a JPEG bitstream.
#[derive(Debug)]
pub struct JpegFrame {
    pub header: Option<make87_messages::core::Header>,
    pub data: Vec<u8>,
}

/// Why a frame could not be converted.
#[derive(Debug)]
pub enum ConvertError {
    /// The frame holds no image.
    UnsupportedLayout,
    /// The pixel buffer is shorter than the frame's dimensions call for.
    InsufficientData { expected: u128, actual: usize },
    /// The configured quality is outside `0..=100`.
    InvalidQuality(u64),
    /// The JPEG codec failed, or handed back bytes that are no JPEG bitstream.
    EncodeFailure(String),
}

} // verus!
