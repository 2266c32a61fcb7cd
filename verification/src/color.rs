//! RGB colors with eight bits per channel.

use vstd::prelude::*;

verus! {

use crate::fx::FX_ONE;
use crate::fx::clamp_s;
use crate::fx::tdiv;
use crate::math::Vec3x;

/// A color with three eight-bit channels. The stored value carries no
/// alpha; wherever the framebuffer keeps four bytes per pixel the fourth
/// is written fully opaque.
#[derive(Clone, Copy, Debug, PartialEq, Eq, Structural)]
pub struct Color {
    /// Red channel, 0 to 255.
    pub r: u8,
    /// Green channel, 0 to 255.
    pub g: u8,
    /// Blue channel, 0 to 255.
    pub b: u8,
}

impl Color {
    /// A color from explicit channel values.
    #[inline]
    pub fn new(r: u8, g: u8, b: u8) -> (c: Color)
        ensures
            c == (Color { r, g, b }),
    {
        Color { r, g, b }
    }

    /// The eight-bit channel a unit-range fixed-point component maps to:
    /// the component is clamped to `[0, FX_ONE]` and scaled to 255.
    pub open spec fn channel_s(v: int) -> int {
        tdiv(clamp_s(v, 0, FX_ONE as int) * 255, FX_ONE as int)
    }

    /// One fixed-point component clamped and scaled to a byte channel.
    fn channel(v: i64) -> (r: u8)
        ensures
            r == Self::channel_s(v as int),
    {
        let c: i64 = if v < 0 {
            0
        } else if v > FX_ONE {
            FX_ONE
        } else {
            v
        };
        (((c as u64) * 255) / 65536) as u8
    }

    /// A color from a fixed-point vector of unit-range components, each
    /// clamped to `[0, FX_ONE]` before scaling.
    pub fn from_vec3(v: &Vec3x) -> (c: Color)
        ensures
            c.r == Self::channel_s(v.x as int),
            c.g == Self::channel_s(v.y as int),
            c.b == Self::channel_s(v.z as int),
    {
        Color { r: Self::channel(v.x), g: Self::channel(v.y), b: Self::channel(v.z) }
    }
}

} // verus!
