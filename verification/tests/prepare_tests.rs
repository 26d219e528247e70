use avif_enc::prepare;
use avif_enc::reinterpret::{reinterpret_u16, Reinterpreted};
use avif_enc::ColorType;
use avif_enc::Error;
use avif_enc::PixelSource;
use avif_enc::RawImage;

fn prepared_scratch(bytes: &[u8], width: u32, height: u32, format: ColorType) -> Vec<u8> {
    let raw = RawImage { bytes, width, height, format };
    let mut scratch: Vec<u8> = Vec::new();
    let source = prepare(&raw, &mut scratch).expect("preparation should succeed");
    assert!(matches!(source, PixelSource::Scratch));
    scratch
}

fn prepare_error(bytes: &[u8], width: u32, height: u32, format: ColorType) -> Error {
    let raw = RawImage { bytes, width, height, format };
    let mut scratch: Vec<u8> = Vec::new();
    let err = prepare(&raw, &mut scratch).expect_err("preparation should fail");
    assert_eq!(scratch.len(), 0);
    err
}

#[test]
fn l8_converts_to_opaque_gray() {
    let out = prepared_scratch(&[10, 200], 2, 1, ColorType::L8);
    assert_eq!(out, vec![10, 10, 10, 255, 200, 200, 200, 255]);
}

#[test]
fn la8_keeps_alpha() {
    let out = prepared_scratch(&[10, 20], 1, 1, ColorType::La8);
    assert_eq!(out, vec![10, 10, 10, 20]);
}

#[test]
fn rgb8_adds_opaque_alpha() {
    let out = prepared_scratch(&[1, 2, 3], 1, 1, ColorType::Rgb8);
    assert_eq!(out, vec![1, 2, 3, 255]);
}

#[test]
fn bgr8_reorders_channels() {
    let out = prepared_scratch(&[1, 2, 3], 1, 1, ColorType::Bgr8);
    assert_eq!(out, vec![3, 2, 1, 255]);
}

#[test]
fn bgra8_reorders_and_keeps_alpha() {
    let out = prepared_scratch(&[1, 2, 3, 4, 5, 6, 7, 8], 2, 1, ColorType::Bgra8);
    assert_eq!(out, vec![3, 2, 1, 4, 7, 6, 5, 8]);
}

#[test]
fn eight_bit_formats_yield_one_pixel_per_source_pixel() {
    let cases: Vec<(ColorType, usize)> = vec![
        (ColorType::L8, 1),
        (ColorType::La8, 2),
        (ColorType::Rgb8, 3),
        (ColorType::Bgr8, 3),
        (ColorType::Bgra8, 4),
    ];
    for (format, channels) in cases {
        let bytes = vec![7u8; 3 * 2 * channels];
        let out = prepared_scratch(&bytes, 3, 2, format);
        assert_eq!(out.len(), 3 * 2 * 4);
    }
}

#[test]
fn rgba8_is_zero_copy() {
    let data: Vec<u8> = (0..16).collect();
    let raw = RawImage { bytes: &data, width: 2, height: 2, format: ColorType::Rgba8 };
    let mut scratch: Vec<u8> = Vec::new();
    let source = prepare(&raw, &mut scratch).expect("native layout should succeed");
    match source {
        PixelSource::Borrowed(view) => assert_eq!(view, &data[..]),
        PixelSource::Scratch => panic!("native layout must not use the scratch buffer"),
    }
    assert_eq!(scratch.len(), 0);
}

#[test]
fn rgba8_wrong_length_is_dimension_mismatch() {
    let err = prepare_error(&[0; 15], 2, 2, ColorType::Rgba8);
    assert_eq!(err, Error::DimensionMismatch);
}

#[test]
fn l8_wrong_length_is_dimension_mismatch() {
    let err = prepare_error(&[0; 5], 2, 2, ColorType::L8);
    assert_eq!(err, Error::DimensionMismatch);
}

#[test]
fn zero_width_native_is_dimension_mismatch() {
    let err = prepare_error(&[], 0, 2, ColorType::Rgba8);
    assert_eq!(err, Error::DimensionMismatch);
}

#[test]
fn zero_height_native_is_dimension_mismatch() {
    let err = prepare_error(&[], 2, 0, ColorType::Rgba8);
    assert_eq!(err, Error::DimensionMismatch);
}

#[test]
fn zero_size_luma_is_dimension_mismatch() {
    let err = prepare_error(&[], 0, 0, ColorType::L8);
    assert_eq!(err, Error::DimensionMismatch);
}

#[test]
fn unsupported_format_is_rejected() {
    // 2x2 pixels, 3 channels, 2 bytes each: the length is right, the tag has
    // no conversion path.
    let err = prepare_error(&[0; 24], 2, 2, ColorType::Bgr16);
    assert_eq!(err, Error::UnsupportedColorFormat(ColorType::Bgr16));
    let err = prepare_error(&[0; 32], 2, 2, ColorType::Bgra16);
    assert_eq!(err, Error::UnsupportedColorFormat(ColorType::Bgra16));
}

#[test]
fn l16_scales_with_rounding() {
    // 0x8000 = 32768 -> (32768 * 255 + 32767) / 65535 = 128 (little-endian bytes)
    let out = prepared_scratch(&[0x00, 0x80], 1, 1, ColorType::L16);
    assert_eq!(out, vec![128, 128, 128, 255]);
    // 0xFFFF -> 255 and 0x0001 -> 0
    let out = prepared_scratch(&[0xFF, 0xFF, 0x01, 0x00], 2, 1, ColorType::L16);
    assert_eq!(out, vec![255, 255, 255, 255, 0, 0, 0, 255]);
}

#[test]
fn la16_scales_alpha() {
    let out = prepared_scratch(&[0xFF, 0xFF, 0x00, 0x80], 1, 1, ColorType::La16);
    assert_eq!(out, vec![255, 255, 255, 128]);
}

#[test]
fn rgb16_converts_channelwise() {
    let out = prepared_scratch(&[0xFF, 0xFF, 0x00, 0x00, 0x00, 0x80], 1, 1, ColorType::Rgb16);
    assert_eq!(out, vec![255, 0, 128, 255]);
}

#[test]
fn rgba16_converts_channelwise() {
    let out = prepared_scratch(
        &[0xFF, 0xFF, 0x00, 0x00, 0xFF, 0xFF, 0x00, 0x80],
        1,
        1,
        ColorType::Rgba16,
    );
    assert_eq!(out, vec![255, 0, 255, 128]);
}

#[test]
fn l16_odd_length_is_dimension_mismatch() {
    let err = prepare_error(&[0; 7], 2, 2, ColorType::L16);
    assert_eq!(err, Error::DimensionMismatch);
}

#[test]
fn l16_even_but_wrong_length_is_dimension_mismatch() {
    let err = prepare_error(&[0; 6], 2, 2, ColorType::L16);
    assert_eq!(err, Error::DimensionMismatch);
}

#[test]
fn reinterpret_odd_length_fails_with_dimension_mismatch() {
    let bytes = [1u8, 2, 3];
    let err = reinterpret_u16(&bytes).expect_err("odd length must be rejected");
    assert_eq!(err, Error::DimensionMismatch);
}

#[test]
fn reinterpret_pairs_bytes_into_elements() {
    let bytes = [0x01u8, 0x02, 0x03, 0x04];
    let view = reinterpret_u16(&bytes).expect("even length must succeed");
    assert_eq!(view.as_slice(), &[0x0201u16, 0x0403]);
}

#[test]
fn reinterpret_misaligned_input_copies_identically() {
    // Of two byte windows one address apart, exactly one is aligned for u16;
    // the misaligned one must come back as an owned copy with equal content.
    let storage: Vec<u8> = vec![0x11, 0x22, 0x33, 0x44, 0x55, 0x66, 0x77, 0x88, 0x99, 0xAA];
    let lo = reinterpret_u16(&storage[0..8]).expect("whole elements must succeed");
    let hi = reinterpret_u16(&storage[1..9]).expect("whole elements must succeed");
    let owned_count = (matches!(lo, Reinterpreted::Owned(_)) as usize)
        + (matches!(hi, Reinterpreted::Owned(_)) as usize);
    assert_eq!(owned_count, 1);
    assert_eq!(lo.as_slice(), &[0x2211u16, 0x4433, 0x6655, 0x8877]);
    assert_eq!(hi.as_slice(), &[0x3322u16, 0x5544, 0x7766, 0x9988]);
}
