//! Encoder configuration: quality, speed and color space, clamped at
//! construction and immutable afterwards.

use vstd::prelude::*;
use crate::color::ColorSpace;

verus! {

/// Settings for one encode call. Quality values are saturated into `0..=100`
/// and speed into `0..=10` at construction; they are never rejected.
#[derive(Debug, Copy, Clone)]
pub struct EncoderConfig {
    quality: u8,
    alpha_quality: u8,
    speed: u8,
    premultiplied_alpha: bool,
    color_space: ColorSpace,
}

impl EncoderConfig {
    /// Every value of this type carries clamped settings.
    #[verifier::type_invariant]
    pub closed spec fn inv(self) -> bool {
        self.quality <= 100 && self.alpha_quality <= 100 && self.speed <= 10
    }

    /// The stored quality, `0..=100`.
    pub closed spec fn spec_quality(self) -> u8 {
        self.quality
    }

    /// The stored alpha quality, `0..=100`; mirrors the quality.
    pub closed spec fn spec_alpha_quality(self) -> u8 {
        self.alpha_quality
    }

    /// The stored speed, `0..=10`.
    pub closed spec fn spec_speed(self) -> u8 {
        self.speed
    }

    /// Whether the input is declared as premultiplied alpha; always false.
    pub closed spec fn spec_premultiplied_alpha(self) -> bool {
        self.premultiplied_alpha
    }

    /// The stored color space.
    pub closed spec fn spec_color_space(self) -> ColorSpace {
        self.color_space
    }

    /// Create a configuration with the given speed and quality, saturating
    /// each into its valid range. `speed` 0 is the slowest, 10 the fastest;
    /// `quality` 0 is the worst, 100 the best. The alpha quality mirrors the
    /// quality, alpha is not premultiplied, and the color space starts as
    /// sRGB.
    pub fn new_with_speed_quality(speed: u8, quality: u8) -> (c: Self)
        ensures
            c.spec_quality() == if quality > 100 { 100u8 } else { quality },
            c.spec_alpha_quality() == c.spec_quality(),
            c.spec_speed() == if speed > 10 { 10u8 } else { speed },
            !c.spec_premultiplied_alpha(),
            c.spec_color_space() == ColorSpace::Srgb,
    {
        let q: u8 = if quality > 100 { 100 } else { quality };
        let s: u8 = if speed > 10 { 10 } else { speed };
        EncoderConfig {
            quality: q,
            alpha_quality: q,
            speed: s,
            premultiplied_alpha: false,
            color_space: ColorSpace::Srgb,
        }
    }

    /// The same configuration with the given color space.
    pub fn with_colorspace(self, color_space: ColorSpace) -> (c: Self)
        ensures
            c.spec_quality() == self.spec_quality(),
            c.spec_alpha_quality() == self.spec_alpha_quality(),
            c.spec_speed() == self.spec_speed(),
            c.spec_premultiplied_alpha() == self.spec_premultiplied_alpha(),
            c.spec_color_space() == color_space,
    {
        proof {
            use_type_invariant(self);
        }
        EncoderConfig { color_space, ..self }
    }

    /// The stored quality, `0..=100`.
    pub fn quality(&self) -> (q: u8)
        ensures
            q == self.spec_quality(),
            q <= 100,
    {
        proof {
            use_type_invariant(*self);
        }
        self.quality
    }

    /// The stored alpha quality, `0..=100`.
    pub fn alpha_quality(&self) -> (q: u8)
        ensures
            q == self.spec_alpha_quality(),
            q <= 100,
    {
        proof {
            use_type_invariant(*self);
        }
        self.alpha_quality
    }

    /// The stored speed, `0..=10`.
    pub fn speed(&self) -> (s: u8)
        ensures
            s == self.spec_speed(),
            s <= 10,
    {
        proof {
            use_type_invariant(*self);
        }
        self.speed
    }

    /// Whether the input is declared as premultiplied alpha.
    pub fn premultiplied_alpha(&self) -> (p: bool)
        ensures
            p == self.spec_premultiplied_alpha(),
    {
        self.premultiplied_alpha
    }

    /// The stored color space.
    pub fn color_space(&self) -> (cs: ColorSpace)
        ensures
            cs == self.spec_color_space(),
    {
        self.color_space
    }
}

} // verus!
