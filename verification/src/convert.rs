//! Conversion of supported source layouts into the encoder's native
//! four-channel 8-bit layout.
//!
//! 8-bit sources convert losslessly: luma is replicated across the three
//! color channels, a missing alpha channel becomes fully opaque, and reversed
//! channel orders are put back into red, green, blue order. 16-bit channels
//! are narrowed to 8 bits by scaling with rounding to nearest: a channel `x`
//! becomes `(x * 255 + 32767) / 65535`.

use vstd::prelude::*;
use vstd::arithmetic::div_mod::lemma_fundamental_div_mod;
use crate::color::ColorType;

verus! {

/// A 16-bit channel narrowed to 8 bits by scaling with rounding to nearest.
pub open spec fn scale16(x: u16) -> u8 {
    ((x * 255 + 32767) / 65535) as u8
}

/// Every element of `vals` narrowed to 8 bits.
pub open spec fn scaled8(vals: Seq<u16>) -> Seq<u8> {
    vals.map_values(|x: u16| scale16(x))
}

/// The bytes of one source pixel, for an 8-bit layout.
pub open spec fn pixel8_at(fmt: ColorType, src: Seq<u8>, i: int) -> Seq<u8> {
    src.subrange(i * fmt.spec_channels(), i * fmt.spec_channels() + fmt.spec_channels())
}

/// One source pixel of an 8-bit layout, rewritten as four bytes in red,
/// green, blue, alpha order: luma is replicated, missing alpha is fully
/// opaque, reversed orders are put back.
pub open spec fn rgba_pixel8(fmt: ColorType, px: Seq<u8>) -> Seq<u8> {
    match fmt {
        ColorType::L8 => seq![px[0], px[0], px[0], 255u8],
        ColorType::La8 => seq![px[0], px[0], px[0], px[1]],
        ColorType::Rgb8 => seq![px[0], px[1], px[2], 255u8],
        ColorType::Bgr8 => seq![px[2], px[1], px[0], 255u8],
        ColorType::Rgba8 => seq![px[0], px[1], px[2], px[3]],
        ColorType::Bgra8 => seq![px[2], px[1], px[0], px[3]],
        _ => Seq::empty(),
    }
}

/// An 8-bit source buffer rewritten pixel by pixel into the native layout:
/// four bytes for each whole source pixel.
pub open spec fn converted8(fmt: ColorType, src: Seq<u8>) -> Seq<u8> {
    Seq::new(
        4 * (src.len() / fmt.spec_channels() as nat),
        |j: int| rgba_pixel8(fmt, pixel8_at(fmt, src, j / 4))[j % 4],
    )
}

/// A 16-bit source buffer rewritten into the native layout: each channel is
/// narrowed to 8 bits, then the pixels are rewritten as for the 8-bit layout
/// with the same channel order.
pub open spec fn converted16(fmt: ColorType, vals: Seq<u16>) -> Seq<u8> {
    converted8(fmt.spec_eight_bit(), scaled8(vals))
}

/// One output byte of `converted8`, related back to the source pixel it
/// came from.
proof fn lemma_converted8_byte(fmt: ColorType, src: Seq<u8>, i: int, k: int)
    requires
        0 <= i,
        0 <= k < 4,
        4 * i + k < 4 * (src.len() / fmt.spec_channels() as nat),
    ensures
        converted8(fmt, src)[4 * i + k] == rgba_pixel8(fmt, pixel8_at(fmt, src, i))[k],
{
    assert((4 * i + k) / 4 == i);
    assert((4 * i + k) % 4 == k);
}

/// A 16-bit channel narrowed to 8 bits by scaling with rounding to nearest.
pub fn scale_u16_to_u8(x: u16) -> (r: u8)
    ensures
        r == scale16(x),
{
    let v: u32 = ((x as u32) * 255 + 32767) / 65535;
    proof {
        assert(((x as int) * 255 + 32767) / 65535 <= 255);
    }
    v as u8
}

/// Rewrite an 8-bit source buffer into the native four-channel layout,
/// replacing the previous contents of `out`.
pub fn convert8_into(fmt: ColorType, src: &[u8], out: &mut Vec<u8>)
    requires
        fmt.spec_bytes_per_channel() == 1,
        src@.len() as int % (fmt.spec_channels() as int) == 0,
    ensures
        final(out)@ == converted8(fmt, src@),
{
    let c: usize = fmt.channels();
    let n: usize = src.len() / c;
    proof {
        lemma_fundamental_div_mod(src@.len() as int, c as int);
        assert(n * c == c * n) by (nonlinear_arith);
    }
    let mut buf: Vec<u8> = Vec::new();
    let mut i: usize = 0;
    let mut base: usize = 0;
    while i < n
        invariant
            i <= n,
            base == i * c,
            c == fmt.spec_channels(),
            fmt.spec_bytes_per_channel() == 1,
            n == src@.len() / c as nat,
            n * c == src@.len(),
            src@.len() <= usize::MAX,
            buf@.len() == 4 * i,
            forall|j: int| 0 <= j < 4 * i ==> buf@[j] == converted8(fmt, src@)[j],
        decreases n - i,
    {
        proof {
            assert(base + c <= n * c) by (nonlinear_arith)
                requires
                    base == i * c,
                    i < n,
                    0 < c,
            ;
            assert(base + c <= src@.len());
        }
        let (p0, p1, p2, p3): (u8, u8, u8, u8) = match fmt {
            ColorType::L8 => {
                let l = src[base];
                (l, l, l, 255)
            }
            ColorType::La8 => {
                let l = src[base];
                (l, l, l, src[base + 1])
            }
            ColorType::Rgb8 => (src[base], src[base + 1], src[base + 2], 255),
            ColorType::Bgr8 => (src[base + 2], src[base + 1], src[base], 255),
            ColorType::Rgba8 => (src[base], src[base + 1], src[base + 2], src[base + 3]),
            ColorType::Bgra8 => (src[base + 2], src[base + 1], src[base], src[base + 3]),
            _ => {
                proof {
                    assert(false);
                }
                (0, 0, 0, 0)
            }
        };
        proof {
            assert(rgba_pixel8(fmt, pixel8_at(fmt, src@, i as int)) =~= seq![p0, p1, p2, p3]);
            lemma_converted8_byte(fmt, src@, i as int, 0);
            lemma_converted8_byte(fmt, src@, i as int, 1);
            lemma_converted8_byte(fmt, src@, i as int, 2);
            lemma_converted8_byte(fmt, src@, i as int, 3);
        }
        buf.push(p0);
        buf.push(p1);
        buf.push(p2);
        buf.push(p3);
        i = i + 1;
        base = base + c;
    }
    proof {
        assert(buf@ =~= converted8(fmt, src@));
    }
    *out = buf;
}

/// Rewrite a 16-bit source buffer into the native four-channel layout,
/// narrowing every channel to 8 bits and replacing the previous contents of
/// `out`.
pub fn convert16_into(fmt: ColorType, vals: &[u16], out: &mut Vec<u8>)
    requires
        fmt.spec_bytes_per_channel() == 2,
        fmt.spec_supported(),
        vals@.len() as int % (fmt.spec_channels() as int) == 0,
    ensures
        final(out)@ == converted16(fmt, vals@),
{
    let c: usize = fmt.channels();
    let n: usize = vals.len() / c;
    let ghost fmt8 = fmt.spec_eight_bit();
    let ghost s8 = scaled8(vals@);
    proof {
        lemma_fundamental_div_mod(vals@.len() as int, c as int);
        assert(n * c == c * n) by (nonlinear_arith);
        assert(fmt8.spec_channels() == c);
        assert(s8.len() == vals@.len());
    }
    let mut buf: Vec<u8> = Vec::new();
    let mut i: usize = 0;
    let mut base: usize = 0;
    while i < n
        invariant
            i <= n,
            base == i * c,
            c == fmt.spec_channels(),
            fmt.spec_bytes_per_channel() == 2,
            fmt.spec_supported(),
            fmt8 == fmt.spec_eight_bit(),
            s8 == scaled8(vals@),
            n == vals@.len() / c as nat,
            n * c == vals@.len(),
            vals@.len() <= usize::MAX,
            buf@.len() == 4 * i,
            forall|j: int| 0 <= j < 4 * i ==> buf@[j] == converted16(fmt, vals@)[j],
        decreases n - i,
    {
        proof {
            assert(base + c <= n * c) by (nonlinear_arith)
                requires
                    base == i * c,
                    i < n,
                    0 < c,
            ;
            assert(base + c <= vals@.len());
        }
        let (p0, p1, p2, p3): (u8, u8, u8, u8) = match fmt {
            ColorType::L16 => {
                let l = scale_u16_to_u8(vals[base]);
                (l, l, l, 255)
            }
            ColorType::La16 => {
                let l = scale_u16_to_u8(vals[base]);
                (l, l, l, scale_u16_to_u8(vals[base + 1]))
            }
            ColorType::Rgb16 => (
                scale_u16_to_u8(vals[base]),
                scale_u16_to_u8(vals[base + 1]),
                scale_u16_to_u8(vals[base + 2]),
                255,
            ),
            ColorType::Rgba16 => (
                scale_u16_to_u8(vals[base]),
                scale_u16_to_u8(vals[base + 1]),
                scale_u16_to_u8(vals[base + 2]),
                scale_u16_to_u8(vals[base + 3]),
            ),
            _ => {
                proof {
                    assert(false);
                }
                (0, 0, 0, 0)
            }
        };
        proof {
            assert(rgba_pixel8(fmt8, pixel8_at(fmt8, s8, i as int)) =~= seq![p0, p1, p2, p3]);
            lemma_converted8_byte(fmt8, s8, i as int, 0);
            lemma_converted8_byte(fmt8, s8, i as int, 1);
            lemma_converted8_byte(fmt8, s8, i as int, 2);
            lemma_converted8_byte(fmt8, s8, i as int, 3);
        }
        buf.push(p0);
        buf.push(p1);
        buf.push(p2);
        buf.push(p3);
        i = i + 1;
        base = base + c;
    }
    proof {
        assert(buf@ =~= converted16(fmt, vals@));
    }
    *out = buf;
}

/// The native layout converts to itself: rewriting a whole-pixel buffer that
/// is already four-channel 8-bit changes nothing, which is what entitles the
/// dispatcher to hand the caller's bytes out zero-copy.
pub proof fn lemma_native_conversion_is_identity(src: Seq<u8>)
    requires
        src.len() as int % 4 == 0,
    ensures
        converted8(ColorType::Rgba8, src) == src,
{
    let out = converted8(ColorType::Rgba8, src);
    lemma_fundamental_div_mod(src.len() as int, 4);
    assert(src.len() / (ColorType::Rgba8.spec_channels() as nat) == src.len() as nat / 4nat);
    assert(out.len() == src.len());
    assert forall|j: int| 0 <= j < src.len() implies out[j] == src[j] by {
        let q = j / 4;
        lemma_fundamental_div_mod(j, 4);
        assert(q * (ColorType::Rgba8.spec_channels() as int) == 4 * q) by (nonlinear_arith)
            requires
                ColorType::Rgba8.spec_channels() == 4,
        ;
        assert(4 * q + 4 <= src.len());
        assert(pixel8_at(ColorType::Rgba8, src, q) =~= src.subrange(4 * q, 4 * q + 4));
        assert(out[j] == src[4 * q + (j % 4)]);
    }
    assert(out =~= src);
}

} // verus!
