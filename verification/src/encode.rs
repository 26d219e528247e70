//! Encode orchestration: prepare the pixel view, hand it to the bitstream
//! encoder, and return the finished AVIF payload.

use vstd::prelude::*;
use crate::color::ColorSpace;
use crate::color::ColorType;
use crate::config::EncoderConfig;
use crate::error::Error;
use crate::prepare::prepare;
use crate::prepare::prepare_failure;
use crate::prepare::PixelSource;
use crate::prepare::RawImage;

verus! {

/// Relies on `ravif::Encoder::encode_rgba`, with `rgb::AsPixels` viewing the
/// byte slice as `width * height` four-byte RGBA pixels and `imgref::Img`
/// carrying the geometry: it compresses the pixels into an AVIF file, or
/// reports a codec failure. Its builder accepts quality and alpha quality in
/// `1..=100` and speed in `1..=10` and panics outside them, and `imgref`
/// refuses a zero width, so the ranges are required here. On success the file
/// is never empty: its serializer always writes the container boxes. Alpha
/// stays unassociated (not premultiplied), the encoder's default.
#[verifier::external_body]
fn encode_rgba_pixels(
    pixels: &[u8],
    width: u32,
    height: u32,
    quality: u8,
    alpha_quality: u8,
    speed: u8,
    color_space: ColorSpace,
) -> (r: Result<Vec<u8>, String>)
    requires
        pixels@.len() == 4 * width * height,
        width > 0,
        height > 0,
        1 <= quality <= 100,
        1 <= alpha_quality <= 100,
        1 <= speed <= 10,
    ensures
        (r matches Ok(payload) ==> payload@.len() > 0),
{
    let model = match color_space {
        ColorSpace::Srgb => ravif::ColorModel::RGB,
        ColorSpace::Bt709 => ravif::ColorModel::YCbCr,
    };
    let encoder = ravif::Encoder::new()
        .with_quality(quality.into())
        .with_alpha_quality(alpha_quality.into())
        .with_speed(speed)
        .with_internal_color_model(model);
    let img = ravif::Img::new(rgb::AsPixels::as_pixels(pixels), width as usize, height as usize);
    match encoder.encode_rgba(img) {
        Ok(encoded) => Ok(encoded.avif_file),
        Err(e) => Err(format!("{}", e)),
    }
}

/// Encode one raw image as an AVIF payload.
///
/// The image is validated and brought into the encoder's native layout by
/// [`prepare`] (using `scratch` for any conversion), then handed to the
/// bitstream encoder together with the configuration. A preparation failure
/// is reported unchanged; a failure of the bitstream encoder itself is
/// wrapped as an encoding error carrying its diagnostic. On success the
/// payload is never empty. The bitstream encoder accepts quality and speed
/// only from 1 upward, so a configured 0 is raised to 1 at the call.
pub fn encode(raw: &RawImage, config: &EncoderConfig, scratch: &mut Vec<u8>) -> (r: Result<
    Vec<u8>,
    Error,
>)
    ensures
        (prepare_failure(*raw) matches Some(e) ==> r == Err::<Vec<u8>, Error>(e) && final(
        scratch)@ == old(scratch)@),
        (prepare_failure(*raw) is None ==> r is Ok || r matches Err(Error::Encoding(..))),
        (r matches Ok(payload) ==> prepare_failure(*raw) is None && payload@.len() > 0),
        (raw.format == ColorType::Rgba8 ==> final(scratch)@ == old(scratch)@),
{
    let source = match prepare(raw, scratch) {
        Ok(s) => s,
        Err(e) => {
            return Err(e);
        }
    };
    let q = config.quality();
    let quality: u8 = if q == 0 {
        1
    } else {
        q
    };
    let aq = config.alpha_quality();
    let alpha_quality: u8 = if aq == 0 {
        1
    } else {
        aq
    };
    let sp = config.speed();
    let speed: u8 = if sp == 0 {
        1
    } else {
        sp
    };
    let cs = config.color_space();
    let encoded = match source {
        PixelSource::Borrowed(bytes) => encode_rgba_pixels(
            bytes,
            raw.width,
            raw.height,
            quality,
            alpha_quality,
            speed,
            cs,
        ),
        PixelSource::Scratch => encode_rgba_pixels(
            scratch.as_slice(),
            raw.width,
            raw.height,
            quality,
            alpha_quality,
            speed,
            cs,
        ),
    };
    match encoded {
        Ok(payload) => Ok(payload),
        Err(diagnostic) => Err(Error::Encoding(diagnostic)),
    }
}

} // verus!
