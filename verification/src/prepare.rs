//! The color-format dispatcher: validating a raw image and producing a
//! four-channel 8-bit pixel view for the encoder.
//!
//! The caller's bytes are used directly (zero-copy) when they are already in
//! the native layout; every other supported layout is converted into the
//! caller-supplied scratch buffer, whose previous contents are replaced.

use vstd::prelude::*;
use vstd::arithmetic::div_mod::lemma_fundamental_div_mod;
use crate::color::ColorType;
use crate::convert::convert16_into;
use crate::convert::convert8_into;
use crate::convert::converted16;
use crate::convert::converted8;
use crate::error::Error;
use crate::reinterpret::is_u16_view;
use crate::reinterpret::reinterpret_u16;

verus! {

/// A raw image as the caller hands it in: borrowed bytes plus the claimed
/// geometry and layout. The bytes are only read, never changed.
#[derive(Copy, Clone)]
pub struct RawImage<'a> {
    /// The raw samples, row-major.
    pub bytes: &'a [u8],
    /// Width in pixels.
    pub width: u32,
    /// Height in pixels.
    pub height: u32,
    /// The claimed layout of `bytes`.
    pub format: ColorType,
}

/// Where the prepared native-layout pixels live: in the caller's own bytes
/// (the zero-copy path) or in the scratch buffer (the conversion path).
#[derive(Debug)]
pub enum PixelSource<'a> {
    /// The caller's bytes, already in the native layout.
    Borrowed(&'a [u8]),
    /// The scratch buffer now holds the converted pixels.
    Scratch,
}

/// The byte count that `width`, `height` and `format` imply.
pub open spec fn expected_len(fmt: ColorType, width: u32, height: u32) -> int {
    width * height * fmt.spec_channels() * fmt.spec_bytes_per_channel()
}

/// Whether the buffer's length matches the byte count its geometry implies.
pub open spec fn len_ok(raw: RawImage) -> bool {
    raw.bytes@.len() == expected_len(raw.format, raw.width, raw.height)
}

/// Why preparing `raw` fails, if it does: a buffer length that does not match
/// the declared geometry or an implied pixel count of zero is a dimension
/// mismatch, and a format without a conversion path is unsupported. `None`
/// means preparation succeeds.
pub open spec fn prepare_failure(raw: RawImage) -> Option<Error> {
    if !len_ok(raw) {
        Some(Error::DimensionMismatch)
    } else if raw.width == 0 || raw.height == 0 {
        Some(Error::DimensionMismatch)
    } else if !raw.format.spec_supported() {
        Some(Error::UnsupportedColorFormat(raw.format))
    } else {
        None
    }
}

/// Whether the buffer's length matches the byte count its geometry implies.
pub fn has_expected_len(fmt: ColorType, width: u32, height: u32, len: usize) -> (b: bool)
    ensures
        b <==> len as int == expected_len(fmt, width, height),
{
    let c: u128 = fmt.channels() as u128;
    let b: u128 = fmt.bytes_per_channel() as u128;
    proof {
        assert((width as int) * (height as int) < 0x10000000000000000int) by (nonlinear_arith)
            requires
                width <= u32::MAX,
                height <= u32::MAX,
        ;
    }
    let wh: u128 = (width as u128) * (height as u128);
    proof {
        assert(wh * c < 0x40000000000000000int) by (nonlinear_arith)
            requires
                wh < 0x10000000000000000int,
                c <= 4,
        ;
    }
    let whc: u128 = wh * c;
    proof {
        assert(whc * b < 0x80000000000000000int) by (nonlinear_arith)
            requires
                whc < 0x40000000000000000int,
                b <= 2,
        ;
    }
    let expected: u128 = whc * b;
    (len as u128) == expected
}

/// Validate a raw image against its declared geometry and produce a pixel
/// view in the encoder's native four-channel 8-bit layout.
///
/// The buffer's length must equal exactly the byte count the geometry
/// implies, and the image must hold at least one pixel; otherwise this is a
/// dimension mismatch. For the native layout the caller's bytes are returned
/// as they are, zero-copy, and the scratch buffer is left untouched. Every
/// other supported layout is converted into the scratch buffer, replacing its
/// previous contents; 16-bit layouts are first reinterpreted as 16-bit
/// elements (borrowed when alignment permits, copied once otherwise). A
/// format without a conversion path is rejected, with the scratch buffer left
/// untouched. On success the prepared view holds exactly `width * height`
/// four-byte pixels.
pub fn prepare<'a>(raw: &RawImage<'a>, scratch: &mut Vec<u8>) -> (r: Result<
    PixelSource<'a>,
    Error,
>)
    ensures
        r is Ok <==> prepare_failure(*raw) is None,
        (prepare_failure(*raw) matches Some(e) ==> r == Err::<PixelSource<'a>, Error>(e)
            && final(scratch)@ == old(scratch)@),
        (r is Ok && raw.format == ColorType::Rgba8 ==> (r matches Ok(PixelSource::Borrowed(s))
            && s@ == raw.bytes@ && s@ == converted8(ColorType::Rgba8, raw.bytes@) && final(
        scratch)@ == old(scratch)@)),
        (r is Ok && raw.format != ColorType::Rgba8 && raw.format.spec_bytes_per_channel() == 1
            ==> r == Ok::<PixelSource<'a>, Error>(PixelSource::Scratch) && final(scratch)@
            == converted8(raw.format, raw.bytes@)),
        (r is Ok && raw.format.spec_bytes_per_channel() == 2 ==> r == Ok::<
            PixelSource<'a>,
            Error,
        >(PixelSource::Scratch) && exists|w: Seq<u16>|
            is_u16_view(raw.bytes@, w) && final(scratch)@ == converted16(raw.format, w)),
        (r matches Ok(PixelSource::Borrowed(s)) ==> s@.len() == 4 * raw.width * raw.height),
        (r == Ok::<PixelSource<'a>, Error>(PixelSource::Scratch) ==> final(scratch)@.len() == 4
            * raw.width * raw.height),
{
    let fmt = raw.format;
    if !has_expected_len(fmt, raw.width, raw.height, raw.bytes.len()) {
        return Err(Error::DimensionMismatch);
    }
    if raw.width == 0 || raw.height == 0 {
        return Err(Error::DimensionMismatch);
    }
    proof {
        let c = fmt.spec_channels() as int;
        let b = fmt.spec_bytes_per_channel() as int;
        let px = (raw.width as int) * (raw.height as int);
        assert(raw.bytes@.len() == px * c * b && px * c * b == (px * c) * b && (px * c) * b == b
            * (px * c) && px * c == c * px && 4 * px == 4 * (raw.width as int) * (
        raw.height as int)) by (nonlinear_arith)
            requires
                raw.bytes@.len() == expected_len(fmt, raw.width, raw.height),
                px == (raw.width as int) * (raw.height as int),
                c == fmt.spec_channels() as int,
                b == fmt.spec_bytes_per_channel() as int,
        ;
    }
    match fmt {
        ColorType::Rgba8 => {
            proof {
                let px = (raw.width as int) * (raw.height as int);
                lemma_mul_mod_and_div(px, 4);
                crate::convert::lemma_native_conversion_is_identity(raw.bytes@);
            }
            Ok(PixelSource::Borrowed(raw.bytes))
        }
        ColorType::L8 | ColorType::La8 | ColorType::Rgb8 | ColorType::Bgr8 | ColorType::Bgra8 => {
            proof {
                let c = fmt.spec_channels() as int;
                let px = (raw.width as int) * (raw.height as int);
                lemma_mul_mod_and_div(px, c);
                lemma_converted_pixel_count(raw.bytes@.len() as int, px, c);
            }
            convert8_into(fmt, raw.bytes, scratch);
            Ok(PixelSource::Scratch)
        }
        ColorType::L16 | ColorType::La16 | ColorType::Rgb16 | ColorType::Rgba16 => {
            proof {
                let c = fmt.spec_channels() as int;
                let px = (raw.width as int) * (raw.height as int);
                lemma_mul_mod_and_div(px * c, 2);
            }
            match reinterpret_u16(raw.bytes) {
                Ok(view) => {
                    proof {
                        let c = fmt.spec_channels() as int;
                        let px = (raw.width as int) * (raw.height as int);
                        assert(fmt.spec_eight_bit().spec_channels() == fmt.spec_channels());
                        lemma_mul_mod_and_div(px, c);
                        lemma_converted_pixel_count(view.values().len() as int, px, c);
                    }
                    let elems = view.as_slice();
                    convert16_into(fmt, elems, scratch);
                    proof {
                        assert(is_u16_view(raw.bytes@, view.values()) && scratch@ == converted16(
                            fmt,
                            view.values(),
                        ));
                    }
                    Ok(PixelSource::Scratch)
                }
                Err(e) => Err(e),
            }
        }
        ColorType::Bgr16 | ColorType::Bgra16 => Err(Error::UnsupportedColorFormat(fmt)),
    }
}

/// A count of `q` pixels of `c` channels divides evenly into pixels again.
proof fn lemma_mul_mod_and_div(q: int, c: int)
    requires
        0 <= q,
        0 < c,
    ensures
        (q * c) % c == 0,
        (q * c) / c == q,
{
    vstd::arithmetic::div_mod::lemma_mod_multiples_basic(q, c);
    vstd::arithmetic::div_mod::lemma_div_multiples_vanish(q, c);
    assert(q * c == c * q) by (nonlinear_arith);
}

/// A source of `px` whole pixels converts to `4 * px` output bytes.
proof fn lemma_converted_pixel_count(len: int, px: int, c: int)
    requires
        0 <= px,
        0 < c,
        len == px * c,
    ensures
        4 * ((len as nat) / (c as nat)) == 4 * px,
{
    lemma_mul_mod_and_div(px, c);
    lemma_fundamental_div_mod(len, c);
}

} // verus!
