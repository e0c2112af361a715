//! An 8-bit-per-channel color with saturating arithmetic.
//!
//! Every operation clamps each channel into 0..=255; nothing ever wraps.

use vstd::prelude::*;
use crate::fixed::scale_down;

verus! {

#[derive(Debug, Clone, Copy, PartialEq, Eq, Structural)]
pub struct Color {
    pub r: u8,
    pub g: u8,
    pub b: u8,
}

/// Saturation of an integer into the channel range 0..=255.
pub open spec fn clamp_channel(v: int) -> int {
    if v < 0 {
        0
    } else if v > 255 {
        255
    } else {
        v
    }
}

pub open spec fn spec_color_new(r: int, g: int, b: int) -> Color {
    Color { r: clamp_channel(r) as u8, g: clamp_channel(g) as u8, b: clamp_channel(b) as u8 }
}

/// The channels packed as 0x00RRGGBB.
pub open spec fn spec_pack_rgb(c: Color) -> u32 {
    ((c.r as u32) << 16) | ((c.g as u32) << 8) | (c.b as u32)
}

/// Channelwise saturating addition.
pub open spec fn spec_color_add(a: Color, b: Color) -> Color {
    spec_color_new(a.r + b.r, a.g + b.g, a.b + b.b)
}

/// Channelwise scaling by a fixed-point factor, saturated into the channel
/// range; a negative factor darkens to black.
pub open spec fn spec_color_scale(c: Color, s: int) -> Color {
    spec_color_new(
        scale_down(c.r * s),
        scale_down(c.g * s),
        scale_down(c.b * s),
    )
}

fn channel_scale(c: u8, s: i64) -> (r: u8)
    ensures
        r == clamp_channel(scale_down(c * s)),
{
    proof {
        assert(-0x800000000000000000 <= (c as int) * (s as int) <= 0x800000000000000000)
            by (nonlinear_arith)
            requires
                0 <= c <= 255,
                -0x8000000000000000 <= s <= 0x7fffffffffffffff;
    }
    let p: i128 = (c as i128) * (s as i128);
    if p <= 0 {
        assert(scale_down(c * s) <= 0);
        0
    } else {
        let q: u128 = (p as u128) / 65536;
        if q > 255 {
            255
        } else {
            q as u8
        }
    }
}

impl Color {
    pub fn new(r: i32, g: i32, b: i32) -> (c: Color)
        ensures
            c == spec_color_new(r as int, g as int, b as int),
    {
        Color { r: Color::clamp(r), g: Color::clamp(g), b: Color::clamp(b) }
    }

    /// Saturates an integer channel value into 0..=255.
    pub fn clamp(value: i32) -> (r: u8)
        ensures
            r == clamp_channel(value as int),
    {
        if value < 0 {
            0
        } else if value > 255 {
            255
        } else {
            value as u8
        }
    }

    /// Unpacks the low 24 bits of `hex` as red, green, blue.
    pub fn from_hex(hex: u32) -> (c: Color)
        ensures
            c.r == ((hex >> 16) & 0xff) as u8,
            c.g == ((hex >> 8) & 0xff) as u8,
            c.b == (hex & 0xff) as u8,
    {
        Color { r: ((hex >> 16) & 0xff) as u8, g: ((hex >> 8) & 0xff) as u8, b: (hex & 0xff) as u8 }
    }

    /// Channelwise saturating addition.
    pub fn add(&self, other: &Color) -> (c: Color)
        ensures
            c == spec_color_add(*self, *other),
    {
        Color {
            r: Color::clamp(self.r as i32 + other.r as i32),
            g: Color::clamp(self.g as i32 + other.g as i32),
            b: Color::clamp(self.b as i32 + other.b as i32),
        }
    }

    /// Channelwise scaling by a fixed-point factor.
    pub fn multiply(&self, scalar: i64) -> (c: Color)
        ensures
            c == spec_color_scale(*self, scalar as int),
    {
        Color {
            r: channel_scale(self.r, scalar),
            g: channel_scale(self.g, scalar),
            b: channel_scale(self.b, scalar),
        }
    }

    pub fn black() -> (c: Color)
        ensures
            c == (Color { r: 0u8, g: 0u8, b: 0u8 }),
    {
        Color { r: 0, g: 0, b: 0 }
    }

    /// Packs the channels as 0x00RRGGBB.
    pub fn to_u32(&self) -> (r: u32)
        ensures
            r == spec_pack_rgb(*self),
    {
        ((self.r as u32) << 16) | ((self.g as u32) << 8) | (self.b as u32)
    }
}

/// Scaling by the fixed-point unit is the identity: multiplying a color by
/// 1.0 changes nothing.
pub proof fn lemma_color_scale_one(c: Color)
    ensures
        spec_color_scale(c, 65536) == c,
{
    assert((c.r * 65536) / 65536 == c.r as int
        && (c.g * 65536) / 65536 == c.g as int
        && (c.b * 65536) / 65536 == c.b as int) by (nonlinear_arith);
}

/// Scaling by zero yields black.
pub proof fn lemma_color_scale_zero(c: Color)
    ensures
        spec_color_scale(c, 0) == (Color { r: 0u8, g: 0u8, b: 0u8 }),
{
}

/// Black is the identity of saturating color addition.
pub proof fn lemma_color_add_black(c: Color)
    ensures
        spec_color_add(c, Color { r: 0u8, g: 0u8, b: 0u8 }) == c,
        spec_color_add(Color { r: 0u8, g: 0u8, b: 0u8 }, c) == c,
{
}

} // verus!
