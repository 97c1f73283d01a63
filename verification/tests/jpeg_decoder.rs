//! Tests for the JPEG decoder: limit enforcement, the decode paths and
//! the error taxonomy, driven by synthetic images.

use image::codecs::jpeg::{EngineError, JpegColorSpace, JpegDecoder};
use image::{ColorType, DecodingDiagnostic, ImageError, LimitErrorKind, Limits};

const WIDTH: u16 = 256;
const HEIGHT: u16 = 256;

/// Encodes a synthetic image of the given size and color layout.
fn test_image(width: u16, height: u16, color: jpeg_encoder::ColorType) -> Vec<u8> {
    let bpp = match color {
        jpeg_encoder::ColorType::Luma => 1usize,
        jpeg_encoder::ColorType::Rgb => 3usize,
        _ => panic!("unused color layout"),
    };
    let mut pixels = Vec::new();
    for y in 0..height as usize {
        for x in 0..width as usize {
            for c in 0..bpp {
                pixels.push(((x + y + c) % 251) as u8);
            }
        }
    }
    let mut bytes: Vec<u8> = Vec::new();
    let encoder = jpeg_encoder::Encoder::new(&mut bytes, 90);
    encoder.encode(&pixels, width, height, color).unwrap();
    bytes
}

/// Limits with width and height smaller than the test image.
fn width_height_limits() -> Limits {
    let mut limits = Limits::no_limits();
    limits.max_image_width = Some(WIDTH as u32 / 2);
    limits.max_image_height = Some(HEIGHT as u32 / 2);
    limits
}

/// Limits with only the allocation bound smaller than the test image.
fn allocation_limits() -> Limits {
    let mut limits = Limits::no_limits();
    limits.max_alloc = Some(WIDTH as u64 / 2 * (HEIGHT as u64 / 2) * 3);
    limits
}

/// Limits that admit the test image with room to spare.
fn permissive_limits() -> Limits {
    let mut limits = Limits::no_limits();
    limits.max_image_width = Some(WIDTH as u32);
    limits.max_image_height = Some(HEIGHT as u32);
    limits.max_alloc = Some(WIDTH as u64 * HEIGHT as u64 * 5);
    limits
}

#[test]
fn decode_without_limits_succeeds_with_advertised_size() {
    let bytes = test_image(WIDTH, HEIGHT, jpeg_encoder::ColorType::Rgb);
    let decoder = JpegDecoder::new(bytes).unwrap();
    assert_eq!(decoder.dimensions(), (WIDTH as u32, HEIGHT as u32));
    assert_eq!(decoder.color_type(), ColorType::Rgb8);
    let advertised = decoder.total_bytes();
    assert_eq!(advertised, WIDTH as u64 * HEIGHT as u64 * 3);
    let mut buf = vec![0u8; advertised as usize];
    decoder.read_image(&mut buf).unwrap();
    assert_eq!(buf.len() as u64, advertised);
}

#[test]
fn decode_with_permissive_limits_succeeds() {
    let bytes = test_image(WIDTH, HEIGHT, jpeg_encoder::ColorType::Rgb);
    let mut decoder = JpegDecoder::new(bytes).unwrap();
    decoder.set_limits(permissive_limits()).unwrap();
    let mut buf = vec![0u8; decoder.total_bytes() as usize];
    assert!(decoder.read_image(&mut buf).is_ok());
}

#[test]
fn dimension_limits_reject_with_a_dimension_error() {
    let bytes = test_image(WIDTH, HEIGHT, jpeg_encoder::ColorType::Rgb);
    let mut decoder = JpegDecoder::new(bytes).unwrap();
    decoder.set_limits(width_height_limits()).unwrap();
    let mut buf = vec![0u8; decoder.total_bytes() as usize];
    let err = decoder.read_image(&mut buf).unwrap_err();
    assert_eq!(err, ImageError::Limits(LimitErrorKind::DimensionError));
}

#[test]
fn dimension_limits_reject_the_reader_path_too() {
    let bytes = test_image(WIDTH, HEIGHT, jpeg_encoder::ColorType::Rgb);
    let mut decoder = JpegDecoder::new(bytes).unwrap();
    decoder.set_limits(width_height_limits()).unwrap();
    let err = decoder.into_reader().unwrap_err();
    assert_eq!(err, ImageError::Limits(LimitErrorKind::DimensionError));
}

#[test]
fn allocation_limit_is_not_enforced_by_this_decoder() {
    // The wrapped engine exposes no allocation cap, so this decoder
    // cannot honor `max_alloc`; that documented exception must show up
    // here explicitly rather than pass in silence.
    println!(
        "NOTE: the JPEG decoder does not enforce max_alloc; \
         the decode below succeeds although the bound is half the output"
    );
    let bytes = test_image(WIDTH, HEIGHT, jpeg_encoder::ColorType::Rgb);
    let mut decoder = JpegDecoder::new(bytes).unwrap();
    decoder.set_limits(allocation_limits()).unwrap();
    let mut buf = vec![0u8; decoder.total_bytes() as usize];
    assert!(decoder.read_image(&mut buf).is_ok());
}

#[test]
fn short_buffer_is_a_decoding_error_citing_both_lengths() {
    let bytes = test_image(WIDTH, HEIGHT, jpeg_encoder::ColorType::Rgb);
    let decoder = JpegDecoder::new(bytes).unwrap();
    let advertised = decoder.total_bytes();
    let mut buf = vec![0u8; advertised as usize - 1];
    let err = decoder.read_image(&mut buf).unwrap_err();
    assert_eq!(
        err,
        ImageError::Decoding(DecodingDiagnostic::LengthMismatch {
            expected: advertised,
            actual: advertised - 1,
        })
    );
}

#[test]
fn oversized_buffer_is_rejected_too() {
    let bytes = test_image(WIDTH, HEIGHT, jpeg_encoder::ColorType::Rgb);
    let decoder = JpegDecoder::new(bytes).unwrap();
    let advertised = decoder.total_bytes();
    let mut buf = vec![0u8; advertised as usize + 1];
    let err = decoder.read_image(&mut buf).unwrap_err();
    assert!(matches!(
        err,
        ImageError::Decoding(DecodingDiagnostic::LengthMismatch { .. })
    ));
}

#[test]
fn reader_path_yields_the_same_bytes_as_the_buffer_path() {
    let bytes = test_image(WIDTH, HEIGHT, jpeg_encoder::ColorType::Rgb);
    let decoder = JpegDecoder::new(bytes.clone()).unwrap();
    let mut buf = vec![0u8; decoder.total_bytes() as usize];
    decoder.read_image(&mut buf).unwrap();

    let decoder = JpegDecoder::new(bytes).unwrap();
    let mut reader = decoder.into_reader().unwrap();
    let mut streamed = Vec::new();
    let n = reader.read_to_end(&mut streamed);
    assert_eq!(n as u64, WIDTH as u64 * HEIGHT as u64 * 3);
    assert_eq!(streamed, buf);
}

#[test]
fn reader_reads_in_chunks_without_losing_bytes() {
    let bytes = test_image(16, 8, jpeg_encoder::ColorType::Rgb);
    let decoder = JpegDecoder::new(bytes.clone()).unwrap();
    let mut whole = vec![0u8; decoder.total_bytes() as usize];
    decoder.read_image(&mut whole).unwrap();

    let decoder = JpegDecoder::new(bytes).unwrap();
    let mut reader = decoder.into_reader().unwrap();
    let mut first = vec![0u8; 100];
    assert_eq!(reader.read(&mut first), 100);
    assert_eq!(&first[..], &whole[..100]);
    let mut rest = Vec::new();
    let n = reader.read_to_end(&mut rest);
    assert_eq!(n, whole.len() - 100);
    assert_eq!(&rest[..], &whole[100..]);
    // the reader is finite and not restartable: it is now exhausted
    let mut more = vec![7u8; 4];
    assert_eq!(reader.read(&mut more), 0);
    assert_eq!(more, vec![7u8; 4]);
}

#[test]
fn grayscale_streams_decode_to_one_byte_per_pixel() {
    let bytes = test_image(64, 32, jpeg_encoder::ColorType::Luma);
    let decoder = JpegDecoder::new(bytes).unwrap();
    assert_eq!(decoder.dimensions(), (64, 32));
    assert_eq!(decoder.color_type(), ColorType::L8);
    assert_eq!(decoder.total_bytes(), 64 * 32);
    let mut buf = vec![0u8; 64 * 32];
    assert!(decoder.read_image(&mut buf).is_ok());
}

#[test]
fn malformed_streams_are_a_decoding_error() {
    let err = JpegDecoder::new(vec![0u8; 64]).unwrap_err();
    assert!(matches!(
        err,
        ImageError::Decoding(DecodingDiagnostic::Engine(_))
    ));
}

#[test]
fn truncated_streams_do_not_parse() {
    let bytes = test_image(WIDTH, HEIGHT, jpeg_encoder::ColorType::Rgb);
    assert!(JpegDecoder::new(bytes[..8].to_vec()).is_err());
}

#[test]
fn scale_is_a_documented_no_op() {
    let bytes = test_image(WIDTH, HEIGHT, jpeg_encoder::ColorType::Rgb);
    let mut decoder = JpegDecoder::new(bytes).unwrap();
    assert_eq!(decoder.scale(10, 10).unwrap(), (WIDTH, HEIGHT));
    assert_eq!(decoder.dimensions(), (WIDTH as u32, HEIGHT as u32));
}

#[test]
fn synthetic_streams_carry_no_icc_profile() {
    let bytes = test_image(WIDTH, HEIGHT, jpeg_encoder::ColorType::Rgb);
    let decoder = JpegDecoder::new(bytes).unwrap();
    assert_eq!(decoder.icc_profile(), None);
    // the decoder stays usable for the main decode afterwards
    let mut buf = vec![0u8; decoder.total_bytes() as usize];
    assert!(decoder.read_image(&mut buf).is_ok());
}

#[test]
fn arithmetic_coded_streams_are_rejected() {
    let mut bytes = test_image(16, 16, jpeg_encoder::ColorType::Rgb);
    // turn the baseline start-of-frame marker into the arithmetic-coded
    // one; the engine does not recognize that marker at all and reports
    // the stream as malformed rather than as an unsupported feature
    let sof = bytes.windows(2).position(|w| w == [0xFF, 0xC0]).unwrap();
    bytes[sof + 1] = 0xC9;
    let err = JpegDecoder::new(bytes).unwrap_err();
    assert!(matches!(err, ImageError::Decoding(_)));
}

#[test]
fn embedded_icc_profiles_are_recovered() {
    let profile: Vec<u8> = (0u8..200).map(|b| b.wrapping_mul(3)).collect();
    let pixels = vec![128u8; 8 * 8 * 3];
    let mut bytes: Vec<u8> = Vec::new();
    let mut encoder = jpeg_encoder::Encoder::new(&mut bytes, 90);
    encoder.add_icc_profile(&profile).unwrap();
    encoder
        .encode(&pixels, 8, 8, jpeg_encoder::ColorType::Rgb)
        .unwrap();
    let decoder = JpegDecoder::new(bytes).unwrap();
    assert_eq!(decoder.icc_profile(), Some(profile));
}

#[test]
fn color_normalization_maps_each_native_space() {
    assert_eq!(ColorType::from_jpeg(JpegColorSpace::Rgb), ColorType::Rgb8);
    assert_eq!(ColorType::from_jpeg(JpegColorSpace::Rgba), ColorType::Rgba8);
    assert_eq!(ColorType::from_jpeg(JpegColorSpace::Luma), ColorType::L8);
    assert_eq!(ColorType::from_jpeg(JpegColorSpace::LumaA), ColorType::La8);
    assert_eq!(ColorType::from_jpeg(JpegColorSpace::Other), ColorType::Rgb8);
}

#[test]
fn bytes_per_pixel_matches_each_layout() {
    assert_eq!(ColorType::L8.bytes_per_pixel(), 1);
    assert_eq!(ColorType::La8.bytes_per_pixel(), 2);
    assert_eq!(ColorType::Rgb8.bytes_per_pixel(), 3);
    assert_eq!(ColorType::Rgba8.bytes_per_pixel(), 4);
}

#[test]
fn engine_error_translation_is_total() {
    assert_eq!(
        ImageError::from_jpeg(EngineError::Unsupported("scheme".to_string())),
        ImageError::Unsupported("scheme".to_string())
    );
    assert_eq!(
        ImageError::from_jpeg(EngineError::LargeDimensions(99999)),
        ImageError::Limits(LimitErrorKind::DimensionError)
    );
    assert_eq!(
        ImageError::from_jpeg(EngineError::Other("broken".to_string())),
        ImageError::Decoding(DecodingDiagnostic::Engine("broken".to_string()))
    );
}
