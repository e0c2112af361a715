//! A 2D image sampled by normalized UV coordinates.
//!
//! The pixel data is an immutable flat row-major array with origin at the
//! top-left. Sampling maps u in [0,1] to a column by rounding, v in [0,1] to
//! a row by rounding with v flipped, and answers out-of-range coordinates
//! with a magenta sentinel instead of failing.

use vstd::prelude::*;
use crate::color::Color;

verus! {

#[derive(Debug, Clone)]
pub struct Texture {
    pub width: usize,
    pub height: usize,
    pub color_array: Vec<Color>,
}

impl Texture {
    /// The pixel array, row-major, top-to-bottom.
    pub open spec fn pixels(&self) -> Seq<Color> {
        self.color_array@
    }

    /// Well-formed textures hold exactly width*height pixels and stay within
    /// a megapixel per side, which keeps every index computation in range.
    pub open spec fn wf(&self) -> bool {
        &&& self.pixels().len() == self.width * self.height
        &&& 1 <= self.width <= 1048576
        &&& 1 <= self.height <= 1048576
    }

    /// The pixel at column `x`, row `y`, or the magenta sentinel when either
    /// index is out of bounds.
    pub open spec fn spec_get_color(&self, x: int, y: int) -> Color {
        if 0 <= x < self.width && 0 <= y < self.height {
            self.pixels()[y * self.width + x]
        } else {
            Color { r: 255u8, g: 0u8, b: 255u8 }
        }
    }

    /// The color sampled at normalized fixed-point coordinates (u, v):
    /// u rounds to a column, 1 - v rounds to a row; coordinates outside
    /// [0, 1] yield the magenta sentinel.
    pub open spec fn spec_sample(&self, u: int, v: int) -> Color {
        if 0 <= u <= 65536 && 0 <= v <= 65536 {
            let col = (u * (self.width - 1) + 32768) / 65536;
            let row = ((65536 - v) * (self.height - 1) + 32768) / 65536;
            self.spec_get_color(col, row)
        } else {
            Color { r: 255u8, g: 0u8, b: 255u8 }
        }
    }

    /// Builds a texture from decoded pixel data.
    pub fn new(width: usize, height: usize, pixels: Vec<Color>) -> (t: Texture)
        requires
            pixels@.len() == width * height,
            1 <= width <= 1048576,
            1 <= height <= 1048576,
        ensures
            t.wf(),
            t.width == width,
            t.height == height,
            t.pixels() == pixels@,
    {
        Texture { width, height, color_array: pixels }
    }

    /// The pixel at (x, y), or magenta when out of bounds.
    pub fn get_color(&self, x: usize, y: usize) -> (c: Color)
        requires
            self.wf(),
        ensures
            c == self.spec_get_color(x as int, y as int),
    {
        if x >= self.width || y >= self.height {
            Color { r: 255, g: 0, b: 255 }
        } else {
            // the pixel count fits in usize, so the flat index does too
            let n: usize = self.color_array.len();
            assert(y * self.width + x < self.width * self.height) by (nonlinear_arith)
                requires
                    x < self.width,
                    y < self.height;
            self.color_array[y * self.width + x]
        }
    }

    /// Samples the texture at normalized fixed-point UV coordinates.
    pub fn sample(&self, u: i64, v: i64) -> (c: Color)
        requires
            self.wf(),
        ensures
            c == self.spec_sample(u as int, v as int),
    {
        if u < 0 || u > 65536 || v < 0 || v > 65536 {
            Color { r: 255, g: 0, b: 255 }
        } else {
            let w1: u64 = self.width as u64 - 1;
            let h1: u64 = self.height as u64 - 1;
            assert(u * w1 <= 65536 * 1048576 && (65536 - v) * h1 <= 65536 * 1048576)
                by (nonlinear_arith)
                requires
                    0 <= u <= 65536,
                    0 <= v <= 65536,
                    0 <= w1 <= 1048576,
                    0 <= h1 <= 1048576;
            let col: u64 = (u as u64 * w1 + 32768) / 65536;
            let row: u64 = ((65536 - v) as u64 * h1 + 32768) / 65536;
            assert(col < self.width && row < self.height) by (nonlinear_arith)
                requires
                    col == (u * w1 + 32768) / 65536,
                    row == ((65536 - v) * h1 + 32768) / 65536,
                    0 <= u <= 65536,
                    0 <= v <= 65536,
                    w1 == self.width - 1,
                    h1 == self.height - 1,
                    1 <= self.width,
                    1 <= self.height;
            self.get_color(col as usize, row as usize)
        }
    }

    /// A single black pixel, the fallback for assets that fail to decode.
    pub fn black() -> (t: Texture)
        ensures
            t.wf(),
            t.width == 1,
            t.height == 1,
            t.pixels() == seq![Color { r: 0u8, g: 0u8, b: 0u8 }],
    {
        let mut pixels: Vec<Color> = Vec::new();
        pixels.push(Color::black());
        assert(pixels@ =~= seq![Color { r: 0u8, g: 0u8, b: 0u8 }]);
        Texture { width: 1, height: 1, color_array: pixels }
    }
}

} // verus!
