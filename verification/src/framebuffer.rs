//! The output pixel buffer: packed 32-bit colors, row-major, top-to-bottom,
//! with alpha fixed at 255.

use vstd::prelude::*;
use crate::color::Color;

verus! {

/// A color packed as 0xFFRRGGBB: alpha 255 and the channels in the low
/// 24 bits.
pub open spec fn spec_color_to_u32(c: Color) -> u32 {
    (255u32 << 24) | ((c.r as u32) << 16) | ((c.g as u32) << 8) | (c.b as u32)
}

pub struct Framebuffer {
    pub width: usize,
    pub height: usize,
    pub buffer: Vec<u32>,
    pub background_color: Color,
    pub current_color: Color,
}

impl Framebuffer {
    /// The buffer always holds exactly one packed color per pixel.
    pub open spec fn wf(&self) -> bool {
        self.buffer@.len() == self.width * self.height
    }

    /// A buffer of `width * height` zeroed pixels with the default gray
    /// background.
    pub fn new(width: usize, height: usize) -> (fb: Framebuffer)
        requires
            width * height <= usize::MAX,
        ensures
            fb.wf(),
            fb.width == width,
            fb.height == height,
            forall|i: int| 0 <= i < fb.buffer@.len() ==> fb.buffer@[i] == 0,
            fb.background_color == (Color { r: 179u8, g: 179u8, b: 179u8 }),
            fb.current_color == (Color { r: 255u8, g: 255u8, b: 255u8 }),
    {
        let total: usize = width * height;
        let mut buffer: Vec<u32> = Vec::new();
        let mut i: usize = 0;
        while i < total
            invariant
                i <= total,
                buffer@.len() == i,
                forall|j: int| 0 <= j < i ==> buffer@[j] == 0,
            decreases total - i,
        {
            buffer.push(0);
            i = i + 1;
        }
        Framebuffer {
            width,
            height,
            buffer,
            background_color: Color::new(179, 179, 179),
            current_color: Color::new(255, 255, 255),
        }
    }

    /// Fills every pixel with the packed background color.
    pub fn clear(&mut self)
        ensures
            final(self).width == old(self).width,
            final(self).height == old(self).height,
            final(self).background_color == old(self).background_color,
            final(self).current_color == old(self).current_color,
            final(self).buffer@.len() == old(self).buffer@.len(),
            forall|i: int|
                0 <= i < final(self).buffer@.len() ==> final(self).buffer@[i]
                    == spec_color_to_u32(old(self).background_color),
    {
        let color_u32 = self.color_to_u32(&self.background_color);
        let n = self.buffer.len();
        let mut i: usize = 0;
        while i < n
            invariant
                i <= n,
                self.buffer@.len() == n,
                self.width == old(self).width,
                self.height == old(self).height,
                self.background_color == old(self).background_color,
                self.current_color == old(self).current_color,
                color_u32 == spec_color_to_u32(old(self).background_color),
                forall|j: int| 0 <= j < i ==> self.buffer@[j] == color_u32,
            decreases n - i,
        {
            self.buffer[i] = color_u32;
            i = i + 1;
        }
    }

    /// Replaces the background color used by `clear`.
    pub fn set_background_color(&mut self, color: Color)
        ensures
            final(self).background_color == color,
            final(self).width == old(self).width,
            final(self).height == old(self).height,
            final(self).buffer == old(self).buffer,
            final(self).current_color == old(self).current_color,
    {
        self.background_color = color;
    }

    /// Packs a color as 0xFFRRGGBB.
    pub fn color_to_u32(&self, color: &Color) -> (r: u32)
        ensures
            r == spec_color_to_u32(*color),
    {
        pack_color(color)
    }
}

/// Packs a color as 0xFFRRGGBB: alpha fixed at 255, the channels in the low
/// 24 bits.
pub fn pack_color(color: &Color) -> (r: u32)
    ensures
        r == spec_color_to_u32(*color),
{
    (255u32 << 24) | ((color.r as u32) << 16) | ((color.g as u32) << 8) | (color.b as u32)
}

} // verus!
