//! Color format tags and color spaces.
//!
//! A `ColorType` names the memory layout of one source pixel: how many
//! channels it has, how wide one channel is in bytes, and the channel order.

use vstd::prelude::*;

verus! {

/// An enumeration over supported AVIF color spaces.
#[derive(Debug, Copy, Clone, PartialEq, Eq, Structural)]
pub enum ColorSpace {
    /// sRGB colorspace
    Srgb,
    /// BT.709 colorspace
    Bt709,
}

/// The layout of the caller's raw pixel buffer: channel count, channel width
/// and channel order. The 16-bit BGR layouts carry a well-defined geometry but
/// have no conversion path to the encoder's native layout.
#[derive(Debug, Copy, Clone, PartialEq, Eq, Structural)]
pub enum ColorType {
    /// 8-bit luma, one channel per pixel
    L8,
    /// 8-bit luma plus alpha
    La8,
    /// 8-bit red, green, blue
    Rgb8,
    /// 8-bit blue, green, red
    Bgr8,
    /// 8-bit red, green, blue, alpha: the encoder's native layout
    Rgba8,
    /// 8-bit blue, green, red, alpha
    Bgra8,
    /// 16-bit luma
    L16,
    /// 16-bit luma plus alpha
    La16,
    /// 16-bit red, green, blue
    Rgb16,
    /// 16-bit blue, green, red
    Bgr16,
    /// 16-bit red, green, blue, alpha
    Rgba16,
    /// 16-bit blue, green, red, alpha
    Bgra16,
}

impl ColorType {
    /// How many channels one pixel of this layout has.
    pub open spec fn spec_channels(self) -> usize {
        match self {
            ColorType::L8 | ColorType::L16 => 1,
            ColorType::La8 | ColorType::La16 => 2,
            ColorType::Rgb8 | ColorType::Bgr8 | ColorType::Rgb16 | ColorType::Bgr16 => 3,
            ColorType::Rgba8 | ColorType::Bgra8 | ColorType::Rgba16 | ColorType::Bgra16 => 4,
        }
    }

    /// How many bytes one channel of this layout occupies.
    pub open spec fn spec_bytes_per_channel(self) -> usize {
        match self {
            ColorType::L8 | ColorType::La8 | ColorType::Rgb8 | ColorType::Bgr8
                | ColorType::Rgba8 | ColorType::Bgra8 => 1,
            ColorType::L16 | ColorType::La16 | ColorType::Rgb16 | ColorType::Bgr16
                | ColorType::Rgba16 | ColorType::Bgra16 => 2,
        }
    }

    /// Whether a conversion path to the encoder's native four-channel 8-bit
    /// layout exists for this tag.
    pub open spec fn spec_supported(self) -> bool {
        !(self is Bgr16 || self is Bgra16)
    }

    /// The 8-bit layout with the same channel count and order; identity on
    /// the 8-bit layouts themselves.
    pub open spec fn spec_eight_bit(self) -> ColorType {
        match self {
            ColorType::L16 => ColorType::L8,
            ColorType::La16 => ColorType::La8,
            ColorType::Rgb16 => ColorType::Rgb8,
            ColorType::Bgr16 => ColorType::Bgr8,
            ColorType::Rgba16 => ColorType::Rgba8,
            ColorType::Bgra16 => ColorType::Bgra8,
            _ => self,
        }
    }

    /// How many channels one pixel of this layout has.
    #[verifier::when_used_as_spec(spec_channels)]
    pub fn channels(self) -> (n: usize)
        ensures
            n == self.spec_channels(),
            1 <= n <= 4,
    {
        match self {
            ColorType::L8 | ColorType::L16 => 1,
            ColorType::La8 | ColorType::La16 => 2,
            ColorType::Rgb8 | ColorType::Bgr8 | ColorType::Rgb16 | ColorType::Bgr16 => 3,
            ColorType::Rgba8 | ColorType::Bgra8 | ColorType::Rgba16 | ColorType::Bgra16 => 4,
        }
    }

    /// How many bytes one channel of this layout occupies.
    #[verifier::when_used_as_spec(spec_bytes_per_channel)]
    pub fn bytes_per_channel(self) -> (n: usize)
        ensures
            n == self.spec_bytes_per_channel(),
            1 <= n <= 2,
    {
        match self {
            ColorType::L8 | ColorType::La8 | ColorType::Rgb8 | ColorType::Bgr8
                | ColorType::Rgba8 | ColorType::Bgra8 => 1,
            ColorType::L16 | ColorType::La16 | ColorType::Rgb16 | ColorType::Bgr16
                | ColorType::Rgba16 | ColorType::Bgra16 => 2,
        }
    }

    /// Whether a conversion path to the encoder's native layout exists.
    #[verifier::when_used_as_spec(spec_supported)]
    pub fn supported(self) -> (b: bool)
        ensures
            b == self.spec_supported(),
    {
        !(self == ColorType::Bgr16 || self == ColorType::Bgra16)
    }
}

} // verus!
