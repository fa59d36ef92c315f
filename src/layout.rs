use vstd::prelude::*;
use crate::frame::{ConvertError, RawImage, RawPixels};

verus! {

/// Channel order of a packed pixel buffer.
#[derive(Debug, Clone, Copy, PartialEq, Eq, Structural)]
pub enum PackedFormat {
    Rgb,
    Rgba,
}

/// Chroma subsampling of a planar YUV buffer.
#[derive(Debug, Clone, Copy, PartialEq, Eq, Structural)]
pub enum Chroma {
    /// Half resolution in both directions.
    Sub2x2,
    /// Half resolution horizontally.
    Sub2x1,
    /// Full resolution.
    Full,
}

impl PackedFormat {
    pub open spec fn bytes_per_pixel(self) -> int {
        match self {
            PackedFormat::Rgb => 3,
            PackedFormat::Rgba => 4,
        }
    }
}

/// What the encoder needs to know about a pixel buffer besides its bytes.
/// `pitch` is the distance in bytes from one packed row to the next; `align` the
/// byte alignment of planar rows.
#[derive(Debug, Clone, Copy, PartialEq, Eq, Structural)]
pub enum Geometry {
    Packed { width: usize, height: usize, pitch: usize, format: PackedFormat },
    Planar { width: usize, height: usize, align: usize, chroma: Chroma },
}

/// Packed geometry of unpadded rows.
pub open spec fn packed(w: u32, h: u32, format: PackedFormat) -> Geometry {
    Geometry::Packed {
        width: w as usize,
        height: h as usize,
        pitch: (w as int * format.bytes_per_pixel()) as usize,
        format,
    }
}

/// Planar geometry with byte-aligned rows.
pub open spec fn planar(w: u32, h: u32, chroma: Chroma) -> Geometry {
    Geometry::Planar { width: w as usize, height: h as usize, align: 1, chroma }
}

/// Whether a packed buffer of `len` bytes holds the image the codec reads from it:
/// rows at least `width * bytes_per_pixel` apart, and the last row inside the buffer.
pub open spec fn packed_fits(len: int, width: int, height: int, pitch: int, format: PackedFormat) -> bool {
    &&& pitch >= width * format.bytes_per_pixel()
    &&& height == 0 || pitch * (height - 1) + width * format.bytes_per_pixel() <= len
}

/// Tells whether a packed buffer of `len` bytes holds the image that the codec
/// reads from it under the given geometry.
pub fn packed_within(len: usize, width: usize, height: usize, pitch: usize, format: PackedFormat) -> (r: bool)
    ensures
        r == packed_fits(len as int, width as int, height as int, pitch as int, format),
{
    let row: u128 = match format {
        PackedFormat::Rgb => (width as u128) * 3,
        PackedFormat::Rgba => (width as u128) * 4,
    };
    if (pitch as u128) < row {
        return false;
    }
    if height == 0 {
        return true;
    }
    assert(pitch as int * (height - 1) as int <= usize::MAX as int * usize::MAX as int) by (nonlinear_arith)
        requires height >= 1, pitch <= usize::MAX, height <= usize::MAX;
    let before_last: u128 = (pitch as u128) * ((height - 1) as u128);
    before_last <= len as u128 && row <= len as u128 - before_last
}

/// A pixel buffer in a layout the encoder takes, with its geometry.
#[derive(Debug)]
pub struct Normalized {
    pub pixels: Vec<u8>,
    pub geometry: Geometry,
}

/// The U samples of an interleaved chroma plane: the bytes at even offsets.
pub open spec fn even_bytes(uv: Seq<u8>) -> Seq<u8> {
    Seq::new(((uv.len() + 1) / 2) as nat, |i: int| uv[2 * i])
}

/// The V samples of an interleaved chroma plane: the bytes at odd offsets.
pub open spec fn odd_bytes(uv: Seq<u8>) -> Seq<u8> {
    Seq::new((uv.len() / 2) as nat, |i: int| uv[2 * i + 1])
}

/// NV12 bytes with a luma plane of `y_size` bytes, rewritten as planar YUV 4:2:0:
/// the luma plane, then the even bytes of the next `y_size / 2`, then its odd bytes.
pub open spec fn nv12_to_planar(data: Seq<u8>, y_size: int) -> Seq<u8> {
    let uv = data.subrange(y_size, y_size + y_size / 2);
    data.subrange(0, y_size) + even_bytes(uv) + odd_bytes(uv)
}

/// The least buffer length that a frame's dimensions call for in its layout.
pub open spec fn input_len(img: RawImage) -> int {
    let n = img.area();
    match img {
        RawImage::Rgb888(_) => 3 * n,
        RawImage::Rgba8888(_) => 4 * n,
        RawImage::Yuv420(_) => n + 2 * (n / 4),
        RawImage::Yuv422(_) => n + 2 * (n / 2),
        RawImage::Yuv444(_) => 3 * n,
        RawImage::Nv12(_) => n + n / 2,
    }
}

/// The geometry under which the encoder reads a frame of this layout.
pub open spec fn geometry_of(img: RawImage) -> Geometry {
    let w = img.pixels().width;
    let h = img.pixels().height;
    match img {
        RawImage::Rgb888(_) => packed(w, h, PackedFormat::Rgb),
        RawImage::Rgba8888(_) => packed(w, h, PackedFormat::Rgba),
        RawImage::Yuv420(_) => planar(w, h, Chroma::Sub2x2),
        RawImage::Yuv422(_) => planar(w, h, Chroma::Sub2x1),
        RawImage::Yuv444(_) => planar(w, h, Chroma::Full),
        RawImage::Nv12(_) => planar(w, h, Chroma::Sub2x2),
    }
}

/// The bytes handed to the encoder: NV12 is de-interleaved, every other layout kept as it is.
pub open spec fn normalized_pixels(img: RawImage) -> Seq<u8> {
    match img {
        RawImage::Nv12(p) => nv12_to_planar(p.data@, img.area()),
        _ => img.pixels().data@,
    }
}

/// Whether `normalize` gives this result for `img`.
pub open spec fn normalize_result(img: RawImage, r: Result<Normalized, ConvertError>) -> bool {
    if img.pixels().data@.len() < input_len(img) {
        r == Err::<Normalized, ConvertError>(ConvertError::InsufficientData {
            expected: input_len(img) as u128,
            actual: img.pixels().data@.len() as usize,
        })
    } else {
        &&& r is Ok
        &&& r->Ok_0.pixels@ == normalized_pixels(img)
        &&& r->Ok_0.geometry == geometry_of(img)
    }
}

/// Every packed buffer that `normalize` hands out with a nonzero height holds the
/// image that the codec reads from it.
pub open spec fn packed_output_fits(r: Result<Normalized, ConvertError>) -> bool {
    r is Ok ==> match r->Ok_0.geometry {
        Geometry::Packed { width, height, pitch, format } =>
            height > 0 ==> packed_fits(r->Ok_0.pixels@.len() as int, width as int, height as int, pitch as int, format),
        Geometry::Planar { .. } => true,
    }
}

proof fn lemma_unpadded_rows_fit(len: int, w: u32, h: u32, format: PackedFormat)
    requires
        h > 0,
        len <= usize::MAX,
        len >= w as int * h as int * format.bytes_per_pixel(),
    ensures
        match packed(w, h, format) {
            Geometry::Packed { width, height, pitch, format } =>
                packed_fits(len, width as int, height as int, pitch as int, format),
            _ => false,
        },
{
    let b = format.bytes_per_pixel();
    assert(w as int * b <= w as int * h as int * b) by (nonlinear_arith)
        requires h >= 1, b >= 0, w >= 0;
    assert(w as int * b * (h - 1) + w as int * b == w as int * h as int * b) by (nonlinear_arith);
}

fn area_of(p: &RawPixels) -> (r: u128)
    ensures
        r == p.width as int * p.height as int,
{
    assert(p.width as int * p.height as int <= u32::MAX as int * u32::MAX as int) by (nonlinear_arith);
    (p.width as u128) * (p.height as u128)
}

fn raw_pixels(img: &RawImage) -> (r: &RawPixels)
    ensures
        *r == img.pixels(),
{
    match img {
        RawImage::Rgb888(p) => p,
        RawImage::Rgba8888(p) => p,
        RawImage::Yuv420(p) => p,
        RawImage::Yuv422(p) => p,
        RawImage::Yuv444(p) => p,
        RawImage::Nv12(p) => p,
    }
}

/// The least buffer length that the frame's dimensions call for.
pub fn required_len(img: &RawImage) -> (r: u128)
    ensures
        r == input_len(*img),
{
    let n = area_of(raw_pixels(img));
    assert(n <= u32::MAX as int * u32::MAX as int) by (nonlinear_arith)
        requires n == img.pixels().width as int * img.pixels().height as int;
    match img {
        RawImage::Rgb888(_) => 3 * n,
        RawImage::Rgba8888(_) => 4 * n,
        RawImage::Yuv420(_) => n + 2 * (n / 4),
        RawImage::Yuv422(_) => n + 2 * (n / 2),
        RawImage::Yuv444(_) => 3 * n,
        RawImage::Nv12(_) => n + n / 2,
    }
}

/// Rewrites NV12 bytes with a luma plane of `y_size` bytes as planar YUV 4:2:0.
pub fn deinterleave_nv12(data: &Vec<u8>, y_size: usize) -> (out: Vec<u8>)
    requires
        y_size + y_size / 2 <= data@.len(),
    ensures
        out@ == nv12_to_planar(data@, y_size as int),
{
    let len: usize = data.len();
    let uv_size: usize = y_size / 2;
    let ghost uv = data@.subrange(y_size as int, y_size + uv_size);
    let mut out: Vec<u8> = Vec::with_capacity(y_size + uv_size);
    let mut i: usize = 0;
    while i < y_size
        invariant
            i <= y_size,
            y_size + uv_size <= data@.len(),
            len == data@.len(),
            out@ == data@.subrange(0, i as int),
        decreases y_size - i,
    {
        out.push(data[i]);
        i = i + 1;
    }
    let n_even: usize = (uv_size + 1) / 2;
    let mut k: usize = 0;
    while k < n_even
        invariant
            k <= n_even,
            n_even == (uv_size + 1) / 2,
            y_size + uv_size <= data@.len(),
            len == data@.len(),
            uv == data@.subrange(y_size as int, y_size + uv_size),
            out@ == data@.subrange(0, y_size as int) + even_bytes(uv).take(k as int),
        decreases n_even - k,
    {
        assert(2 * k < uv_size);
        out.push(data[y_size + 2 * k]);
        proof {
            assert(even_bytes(uv).take(k + 1) =~= even_bytes(uv).take(k as int).push(uv[2 * k]));
        }
        k = k + 1;
    }
    assert(even_bytes(uv).take(n_even as int) =~= even_bytes(uv));
    let n_odd: usize = uv_size / 2;
    let mut k: usize = 0;
    while k < n_odd
        invariant
            k <= n_odd,
            n_odd == uv_size / 2,
            y_size + uv_size <= data@.len(),
            len == data@.len(),
            uv == data@.subrange(y_size as int, y_size + uv_size),
            out@ == data@.subrange(0, y_size as int) + even_bytes(uv) + odd_bytes(uv).take(k as int),
        decreases n_odd - k,
    {
        assert(2 * k + 1 < uv_size);
        out.push(data[y_size + 2 * k + 1]);
        proof {
            assert(odd_bytes(uv).take(k + 1) =~= odd_bytes(uv).take(k as int).push(uv[2 * k + 1]));
        }
        k = k + 1;
    }
    assert(odd_bytes(uv).take(n_odd as int) =~= odd_bytes(uv));
    out
}

fn packed_geometry(w: u32, h: u32, format: PackedFormat) -> (g: Geometry)
    ensures
        g == packed(w, h, format),
{
    let wide: u128 = match format {
        PackedFormat::Rgb => (w as u128) * 3,
        PackedFormat::Rgba => (w as u128) * 4,
    };
    let pitch: usize = #[verifier::truncate] (wide as usize);
    Geometry::Packed { width: w as usize, height: h as usize, pitch, format }
}

fn planar_geometry(w: u32, h: u32, chroma: Chroma) -> (g: Geometry)
    ensures
        g == planar(w, h, chroma),
{
    Geometry::Planar { width: w as usize, height: h as usize, align: 1, chroma }
}

/// Brings a frame's pixels into a layout the encoder takes, after checking that
/// the buffer holds at least as many bytes as the frame's dimensions call for.
pub fn normalize(img: RawImage) -> (r: Result<Normalized, ConvertError>)
    ensures
        normalize_result(img, r),
        packed_output_fits(r),
{
    let need = required_len(&img);
    let have = raw_pixels(&img).data.len();
    if (have as u128) < need {
        return Err(ConvertError::InsufficientData { expected: need, actual: have });
    }
    proof {
        let p = img.pixels();
        if p.height > 0 {
            match img {
                RawImage::Rgb888(_) => {
                    assert(3 * img.area() == p.width as int * p.height as int * 3) by (nonlinear_arith)
                        requires img.area() == p.width as int * p.height as int;
                    lemma_unpadded_rows_fit(have as int, p.width, p.height, PackedFormat::Rgb);
                },
                RawImage::Rgba8888(_) => {
                    assert(4 * img.area() == p.width as int * p.height as int * 4) by (nonlinear_arith)
                        requires img.area() == p.width as int * p.height as int;
                    lemma_unpadded_rows_fit(have as int, p.width, p.height, PackedFormat::Rgba);
                },
                _ => {},
            }
        }
    }
    match img {
        RawImage::Rgb888(p) => Ok(Normalized {
            geometry: packed_geometry(p.width, p.height, PackedFormat::Rgb),
            pixels: p.data,
        }),
        RawImage::Rgba8888(p) => Ok(Normalized {
            geometry: packed_geometry(p.width, p.height, PackedFormat::Rgba),
            pixels: p.data,
        }),
        RawImage::Yuv420(p) => Ok(Normalized {
            geometry: planar_geometry(p.width, p.height, Chroma::Sub2x2),
            pixels: p.data,
        }),
        RawImage::Yuv422(p) => Ok(Normalized {
            geometry: planar_geometry(p.width, p.height, Chroma::Sub2x1),
            pixels: p.data,
        }),
        RawImage::Yuv444(p) => Ok(Normalized {
            geometry: planar_geometry(p.width, p.height, Chroma::Full),
            pixels: p.data,
        }),
        RawImage::Nv12(p) => {
            let y_size = area_of(&p) as usize;
            let pixels = deinterleave_nv12(&p.data, y_size);
            Ok(Normalized {
                geometry: planar_geometry(p.width, p.height, Chroma::Sub2x2),
                pixels,
            })
        }
    }
}

} // verus!
