use make87_messages::google::protobuf::Timestamp;
use raw_to_jpeg::convert::{finish, prepare, select_quality, PreparedFrame, DEFAULT_QUALITY};
use raw_to_jpeg::frame::{ConvertError, RawFrame, RawImage, RawPixels};
use raw_to_jpeg::layout::{deinterleave_nv12, normalize, packed_within, required_len, Chroma, Geometry, PackedFormat};

const TEST_WIDTH: u32 = 176;
const TEST_HEIGHT: u32 = 144;

fn create_test_header() -> make87_messages::core::Header {
    make87_messages::core::Header {
        timestamp: Some(Timestamp { seconds: 1234567890, nanos: 0 }),
        ..Default::default()
    }
}

fn pixels(width: u32, height: u32, len: usize) -> RawPixels {
    RawPixels { width, height, data: (0..len).map(|i| (i % 251) as u8).collect() }
}

fn frame_of(image: RawImage) -> RawFrame {
    RawFrame { header: Some(create_test_header()), image: Some(image) }
}

fn prepared(image: RawImage) -> PreparedFrame {
    prepare(frame_of(image)).expect("frame should be prepared")
}

fn assert_insufficient(r: Result<PreparedFrame, ConvertError>, want_expected: u128, want_actual: usize) {
    match r {
        Err(ConvertError::InsufficientData { expected, actual }) => {
            assert_eq!(expected, want_expected);
            assert_eq!(actual, want_actual);
        }
        other => panic!("expected InsufficientData, got {:?}", other),
    }
}

#[test]
fn rgb888_qcif_zero_frame_is_prepared_for_packed_encoding() {
    let image = RawImage::Rgb888(RawPixels { width: TEST_WIDTH, height: TEST_HEIGHT, data: vec![0u8; 76032] });
    let p = prepared(image);
    assert_eq!(p.normalized.geometry, Geometry::Packed { width: 176, height: 144, pitch: 528, format: PackedFormat::Rgb });
    assert_eq!(p.normalized.pixels, vec![0u8; 76032]);
    assert_eq!(p.header, Some(create_test_header()));
}

#[test]
fn rgba8888_frame_is_prepared_with_four_byte_pitch() {
    let p = prepared(RawImage::Rgba8888(pixels(TEST_WIDTH, TEST_HEIGHT, 176 * 144 * 4)));
    assert_eq!(p.normalized.geometry, Geometry::Packed { width: 176, height: 144, pitch: 704, format: PackedFormat::Rgba });
    assert_eq!(p.normalized.pixels.len(), 101376);
}

#[test]
fn planar_frames_keep_their_bytes_and_get_their_subsampling() {
    let cases = [
        (RawImage::Yuv420(pixels(TEST_WIDTH, TEST_HEIGHT, 38016)), Chroma::Sub2x2, 38016usize),
        (RawImage::Yuv422(pixels(TEST_WIDTH, TEST_HEIGHT, 50688)), Chroma::Sub2x1, 50688usize),
        (RawImage::Yuv444(pixels(TEST_WIDTH, TEST_HEIGHT, 76032)), Chroma::Full, 76032usize),
    ];
    for (image, chroma, len) in cases {
        let p = prepared(image);
        assert_eq!(p.normalized.geometry, Geometry::Planar { width: 176, height: 144, align: 1, chroma });
        assert_eq!(p.normalized.pixels, pixels(TEST_WIDTH, TEST_HEIGHT, len).data);
    }
}

#[test]
fn required_lengths_per_layout() {
    assert_eq!(required_len(&RawImage::Rgb888(pixels(176, 144, 0))), 76032);
    assert_eq!(required_len(&RawImage::Rgba8888(pixels(176, 144, 0))), 101376);
    assert_eq!(required_len(&RawImage::Yuv420(pixels(176, 144, 0))), 38016);
    assert_eq!(required_len(&RawImage::Yuv422(pixels(176, 144, 0))), 50688);
    assert_eq!(required_len(&RawImage::Yuv444(pixels(176, 144, 0))), 76032);
    assert_eq!(required_len(&RawImage::Nv12(pixels(176, 144, 0))), 38016);
    assert_eq!(required_len(&RawImage::Rgba8888(pixels(u32::MAX, u32::MAX, 0))), 4 * (u32::MAX as u128) * (u32::MAX as u128));
}

#[test]
fn nv12_of_exact_length_is_prepared() {
    let p = prepared(RawImage::Nv12(pixels(TEST_WIDTH, TEST_HEIGHT, 38016)));
    assert_eq!(p.normalized.geometry, Geometry::Planar { width: 176, height: 144, align: 1, chroma: Chroma::Sub2x2 });
    assert_eq!(p.normalized.pixels.len(), 38016);
}

#[test]
fn nv12_one_byte_short_is_insufficient() {
    assert_insufficient(prepare(frame_of(RawImage::Nv12(pixels(TEST_WIDTH, TEST_HEIGHT, 38015)))), 38016, 38015);
}

#[test]
fn every_layout_reports_a_short_buffer() {
    assert_insufficient(prepare(frame_of(RawImage::Rgb888(pixels(4, 2, 23)))), 24, 23);
    assert_insufficient(prepare(frame_of(RawImage::Rgba8888(pixels(4, 2, 31)))), 32, 31);
    assert_insufficient(prepare(frame_of(RawImage::Yuv420(pixels(4, 2, 11)))), 12, 11);
    assert_insufficient(prepare(frame_of(RawImage::Yuv422(pixels(4, 2, 15)))), 16, 15);
    assert_insufficient(prepare(frame_of(RawImage::Yuv444(pixels(4, 2, 23)))), 24, 23);
    assert_insufficient(prepare(frame_of(RawImage::Nv12(pixels(4, 2, 0)))), 12, 0);
}

#[test]
fn nv12_chroma_is_deinterleaved() {
    let luma: Vec<u8> = (0..8).collect();
    let mut data = luma.clone();
    data.extend_from_slice(&[100, 200, 101, 201]);
    let p = prepared(RawImage::Nv12(RawPixels { width: 4, height: 2, data }));
    let mut want = luma;
    want.extend_from_slice(&[100, 101, 200, 201]);
    assert_eq!(p.normalized.pixels, want);
}

#[test]
fn nv12_ignores_bytes_past_the_chroma_plane() {
    let data = vec![1, 2, 3, 4, 5, 6, 7, 8, 10, 20, 11, 21, 99, 98];
    let p = prepared(RawImage::Nv12(RawPixels { width: 4, height: 2, data }));
    assert_eq!(p.normalized.pixels, vec![1, 2, 3, 4, 5, 6, 7, 8, 10, 11, 20, 21]);
}

#[test]
fn nv12_with_odd_area_truncates_the_chroma_plane() {
    // 3x3: a 9-byte luma plane and a 4-byte chroma plane.
    let data = vec![0, 1, 2, 3, 4, 5, 6, 7, 8, 50, 60, 51, 61];
    let p = prepared(RawImage::Nv12(RawPixels { width: 3, height: 3, data }));
    assert_eq!(p.normalized.pixels, vec![0, 1, 2, 3, 4, 5, 6, 7, 8, 50, 51, 60, 61]);
    assert_insufficient(prepare(frame_of(RawImage::Nv12(pixels(3, 3, 12)))), 13, 12);
}

#[test]
fn deinterleave_with_odd_chroma_length_puts_the_extra_byte_with_u() {
    let data = vec![7, 8, 9, 30, 40, 31];
    assert_eq!(deinterleave_nv12(&data, 3), vec![7, 8, 9, 30]);
    assert_eq!(deinterleave_nv12(&data, 4), vec![7, 8, 9, 30, 40, 31]);
    assert_eq!(deinterleave_nv12(&data, 0), Vec::<u8>::new());
}

#[test]
fn frame_without_image_is_unsupported() {
    let frame = RawFrame { header: Some(create_test_header()), image: None };
    assert!(matches!(prepare(frame), Err(ConvertError::UnsupportedLayout)));
}

#[test]
fn normalize_passes_packed_bytes_through() {
    let n = normalize(RawImage::Rgb888(pixels(2, 1, 6))).expect("valid frame");
    assert_eq!(n.pixels, vec![0, 1, 2, 3, 4, 5]);
    assert_eq!(n.geometry, Geometry::Packed { width: 2, height: 1, pitch: 6, format: PackedFormat::Rgb });
}

#[test]
fn header_passes_through_conversion() {
    let p = prepared(RawImage::Yuv444(pixels(2, 2, 12)));
    let jpeg = finish(p.header, Ok(vec![0xFF, 0xD8, 0xFF, 0xD9])).expect("codec output is a JPEG");
    assert_eq!(jpeg.header, Some(create_test_header()));
    assert_eq!(jpeg.data, vec![0xFF, 0xD8, 0xFF, 0xD9]);
}

#[test]
fn absent_header_stays_absent() {
    let frame = RawFrame { header: None, image: Some(RawImage::Rgb888(pixels(1, 1, 3))) };
    let p = prepare(frame).expect("valid frame");
    let jpeg = finish(p.header, Ok(vec![0xFF, 0xD8])).expect("codec output is a JPEG");
    assert_eq!(jpeg.header, None);
}

#[test]
fn codec_failure_becomes_encode_failure() {
    match finish(Some(create_test_header()), Err("quality out of range".to_string())) {
        Err(ConvertError::EncodeFailure(m)) => assert_eq!(m, "quality out of range"),
        other => panic!("expected EncodeFailure, got {:?}", other),
    }
}

#[test]
fn output_without_start_of_image_marker_is_rejected() {
    assert!(matches!(finish(None, Ok(vec![0xD8, 0xFF, 0x00])), Err(ConvertError::EncodeFailure(_))));
    assert!(matches!(finish(None, Ok(vec![0xFF])), Err(ConvertError::EncodeFailure(_))));
    assert!(matches!(finish(None, Ok(Vec::new())), Err(ConvertError::EncodeFailure(_))));
}

#[test]
fn preparing_the_same_frame_twice_gives_identical_buffers() {
    let a = prepared(RawImage::Nv12(pixels(TEST_WIDTH, TEST_HEIGHT, 38016)));
    let b = prepared(RawImage::Nv12(pixels(TEST_WIDTH, TEST_HEIGHT, 38016)));
    assert_eq!(a.normalized.pixels, b.normalized.pixels);
    assert_eq!(a.normalized.geometry, b.normalized.geometry);
}

#[test]
fn quality_defaults_and_bounds() {
    assert_eq!(DEFAULT_QUALITY, 90);
    assert!(matches!(select_quality(None), Ok(90)));
    assert!(matches!(select_quality(Some(0)), Ok(0)));
    assert!(matches!(select_quality(Some(100)), Ok(100)));
    assert!(matches!(select_quality(Some(101)), Err(ConvertError::InvalidQuality(101))));
    assert!(matches!(select_quality(Some(u64::MAX)), Err(ConvertError::InvalidQuality(u64::MAX))));
}

#[test]
fn packed_buffer_fit_follows_rows_and_pitch() {
    assert!(packed_within(24, 4, 2, 12, PackedFormat::Rgb));
    assert!(!packed_within(23, 4, 2, 12, PackedFormat::Rgb));
    assert!(!packed_within(24, 4, 2, 11, PackedFormat::Rgb));
    assert!(packed_within(28, 4, 2, 16, PackedFormat::Rgb));
    assert!(!packed_within(27, 4, 2, 16, PackedFormat::Rgba));
    assert!(packed_within(32, 4, 2, 16, PackedFormat::Rgba));
    assert!(packed_within(0, 4, 0, 12, PackedFormat::Rgb));
    assert!(!packed_within(0, 4, 0, 11, PackedFormat::Rgb));
    assert!(!packed_within(usize::MAX, usize::MAX, usize::MAX, usize::MAX, PackedFormat::Rgba));
    assert!(!packed_within(usize::MAX, 1, usize::MAX, usize::MAX, PackedFormat::Rgb));
}

#[test]
fn prepared_packed_frames_fit_their_geometry() {
    for image in [RawImage::Rgb888(pixels(TEST_WIDTH, TEST_HEIGHT, 76032)), RawImage::Rgba8888(pixels(3, 5, 60))] {
        let p = prepared(image);
        match p.normalized.geometry {
            Geometry::Packed { width, height, pitch, format } => {
                assert!(packed_within(p.normalized.pixels.len(), width, height, pitch, format));
            }
            other => panic!("expected packed geometry, got {:?}", other),
        }
    }
}
