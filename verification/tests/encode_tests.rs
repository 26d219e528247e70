use avif_enc::encode;
use avif_enc::ColorSpace;
use avif_enc::ColorType;
use avif_enc::EncoderConfig;
use avif_enc::Error;
use avif_enc::RawImage;

#[test]
fn config_clamps_quality_and_speed() {
    let config = EncoderConfig::new_with_speed_quality(255, 255);
    assert_eq!(config.quality(), 100);
    assert_eq!(config.alpha_quality(), 100);
    assert_eq!(config.speed(), 10);
    assert!(!config.premultiplied_alpha());
    assert_eq!(config.color_space(), ColorSpace::Srgb);
}

#[test]
fn config_keeps_values_already_in_range() {
    let config = EncoderConfig::new_with_speed_quality(0, 37);
    assert_eq!(config.quality(), 37);
    assert_eq!(config.alpha_quality(), 37);
    assert_eq!(config.speed(), 0);
}

#[test]
fn with_colorspace_changes_only_the_color_space() {
    let config = EncoderConfig::new_with_speed_quality(3, 80).with_colorspace(ColorSpace::Bt709);
    assert_eq!(config.color_space(), ColorSpace::Bt709);
    assert_eq!(config.quality(), 80);
    assert_eq!(config.alpha_quality(), 80);
    assert_eq!(config.speed(), 3);
    assert!(!config.premultiplied_alpha());
}

#[test]
fn all_white_round_trip_produces_payload() {
    let data = [255u8; 16];
    let raw = RawImage { bytes: &data, width: 2, height: 2, format: ColorType::Rgba8 };
    let config = EncoderConfig::new_with_speed_quality(0, 100);
    let mut scratch: Vec<u8> = Vec::new();
    let payload = encode(&raw, &config, &mut scratch).expect("encoding should succeed");
    assert!(!payload.is_empty());
}

#[test]
fn converted_format_encodes_too() {
    let data = [128u8; 4];
    let raw = RawImage { bytes: &data, width: 2, height: 2, format: ColorType::L8 };
    let config = EncoderConfig::new_with_speed_quality(10, 50);
    let mut scratch: Vec<u8> = Vec::new();
    let payload = encode(&raw, &config, &mut scratch).expect("encoding should succeed");
    assert!(!payload.is_empty());
}

#[test]
fn encode_propagates_dimension_mismatch() {
    let data = [255u8; 15];
    let raw = RawImage { bytes: &data, width: 2, height: 2, format: ColorType::Rgba8 };
    let config = EncoderConfig::new_with_speed_quality(10, 50);
    let mut scratch: Vec<u8> = Vec::new();
    let err = encode(&raw, &config, &mut scratch).expect_err("wrong length must fail");
    assert_eq!(err, Error::DimensionMismatch);
}

#[test]
fn encode_rejects_unsupported_format_without_output() {
    let data = [0u8; 24];
    let raw = RawImage { bytes: &data, width: 2, height: 2, format: ColorType::Bgr16 };
    let config = EncoderConfig::new_with_speed_quality(10, 50);
    let mut scratch: Vec<u8> = Vec::new();
    let err = encode(&raw, &config, &mut scratch).expect_err("unsupported tag must fail");
    assert_eq!(err, Error::UnsupportedColorFormat(ColorType::Bgr16));
    assert_eq!(scratch.len(), 0);
}
