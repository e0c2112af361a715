//! The frame compositor.
//!
//! For each pixel, in row-major order: map the pixel center to normalized
//! device coordinates (aspect-corrected horizontally, v up), obtain the ray
//! from the camera, shade it at depth 0, and pack the color with alpha fixed at 255. Rows are
//! independent: `render_row` computes one row from shared read-only scene
//! state, so a caller may also compute rows concurrently and concatenate
//! them; `render` composes them sequentially into the framebuffer.

use vstd::prelude::*;
use crate::camera::{Camera, spec_generate_ray};
use crate::castray::{cast_ray, spec_cast_ray, scene_wf};

use crate::fixed::{fx_div, fx_mul, spec_fx_div, spec_fx_mul};
use crate::framebuffer::{Framebuffer, pack_color, spec_color_to_u32};
use crate::light::Light;
use crate::object::Primitive;
use crate::texture::Texture;

verus! {

/// The color of pixel (x, y) in a width-by-height frame: the shading
/// recurrence applied at depth 0 to the camera ray through the pixel
/// center, whose normalized device coordinates are aspect-corrected
/// horizontally and flipped vertically.
pub open spec fn spec_pixel_color(
    x: int,
    y: int,
    width: int,
    height: int,
    objects: Seq<Primitive>,
    camera: Camera,
    lights: Seq<Light>,
    daylight: Light,
    textures: Seq<Texture>,
) -> crate::color::Color {
    let sx = spec_fx_mul(spec_fx_div(2 * x + 1 - width, width), spec_fx_div(width, height));
    let sy = spec_fx_div(height - (2 * y + 1), height);
    let dir = spec_generate_ray(camera, sx, sy);
    spec_cast_ray(camera.eye, dir, objects, daylight, lights, textures, 0)
}

/// Computes one row of packed pixels. Rows share only read-only state, so
/// callers may evaluate them concurrently.
#[verifier::loop_isolation(false)]
pub fn render_row(
    y: usize,
    width: usize,
    height: usize,
    objects: &[Primitive],
    camera: &Camera,
    lights: &[Light],
    daylight: &Light,
    textures: &[Texture],
) -> (row: Vec<u32>)
    requires
        scene_wf(objects@, textures@),
        1 <= width <= 1000000,
        1 <= height <= 1000000,
        y < height,
    ensures
        row@.len() == width,
        forall|x: int|
            0 <= x < width ==> row@[x] == spec_color_to_u32(
                spec_pixel_color(
                    x,
                    y as int,
                    width as int,
                    height as int,
                    objects@,
                    *camera,
                    lights@,
                    *daylight,
                    textures@,
                ),
            ),
{
    let wi: i64 = width as i64;
    let hi: i64 = height as i64;
    let aspect: i64 = fx_div(wi, hi);
    let sy: i64 = fx_div(hi - (2 * (y as i64) + 1), hi);
    let mut row: Vec<u32> = Vec::new();
    let mut x: usize = 0;
    while x < width
        invariant
            x <= width,
            row@.len() == x,
            forall|xx: int|
                0 <= xx < x ==> row@[xx] == spec_color_to_u32(
                    spec_pixel_color(
                        xx,
                        y as int,
                        width as int,
                        height as int,
                        objects@,
                        *camera,
                        lights@,
                        *daylight,
                        textures@,
                    ),
                ),
        decreases width - x,
    {
        let sx: i64 = fx_mul(fx_div(2 * (x as i64) + 1 - wi, wi), aspect);
        let dir = camera.generate_ray(sx, sy);
        let color = cast_ray(&camera.eye, &dir, objects, daylight, lights, textures, 0);
        row.push(pack_color(&color));
        x = x + 1;
    }
    row
}

/// Renders the scene into the framebuffer: every pixel of the buffer holds
/// the packed color of the shading recurrence for its ray.
#[verifier::loop_isolation(false)]
pub fn render(
    framebuffer: &mut Framebuffer,
    objects: &[Primitive],
    camera: &Camera,
    lights: &[Light],
    daylight: &Light,
    textures: &[Texture],
)
    requires
        scene_wf(objects@, textures@),
        old(framebuffer).wf(),
        1 <= old(framebuffer).width <= 1000000,
        1 <= old(framebuffer).height <= 1000000,
    ensures
        final(framebuffer).width == old(framebuffer).width,
        final(framebuffer).height == old(framebuffer).height,
        final(framebuffer).background_color == old(framebuffer).background_color,
        final(framebuffer).current_color == old(framebuffer).current_color,
        final(framebuffer).wf(),
        forall|x: int, y: int|
            0 <= x < final(framebuffer).width && 0 <= y < final(framebuffer).height ==> final(
            framebuffer).buffer@[y * final(framebuffer).width + x] == spec_color_to_u32(
                spec_pixel_color(
                    x,
                    y,
                    final(framebuffer).width as int,
                    final(framebuffer).height as int,
                    objects@,
                    *camera,
                    lights@,
                    *daylight,
                    textures@,
                ),
            ),
{
    let width = framebuffer.width;
    let height = framebuffer.height;
    let mut newbuf: Vec<u32> = Vec::new();
    let mut y: usize = 0;
    while y < height
        invariant
            y <= height,
            newbuf@.len() == y * width,
            forall|xx: int, yy: int|
                0 <= xx < width && 0 <= yy < y ==> newbuf@[yy * width + xx] == spec_color_to_u32(
                    spec_pixel_color(
                        xx,
                        yy,
                        width as int,
                        height as int,
                        objects@,
                        *camera,
                        lights@,
                        *daylight,
                        textures@,
                    ),
                ),
        decreases height - y,
    {
        let row = render_row(y, width, height, objects, camera, lights, daylight, textures);
        let mut x: usize = 0;
        while x < width
            invariant
                x <= width,
                newbuf@.len() == y * width + x,
                forall|xx: int|
                    0 <= xx < x ==> newbuf@[y * width + xx] == spec_color_to_u32(
                        spec_pixel_color(
                            xx,
                            y as int,
                            width as int,
                            height as int,
                            objects@,
                            *camera,
                            lights@,
                            *daylight,
                            textures@,
                        ),
                    ),
                forall|xx: int, yy: int|
                    0 <= xx < width && 0 <= yy < y ==> newbuf@[yy * width + xx] == spec_color_to_u32(
                        spec_pixel_color(
                            xx,
                            yy,
                            width as int,
                            height as int,
                            objects@,
                            *camera,
                            lights@,
                            *daylight,
                            textures@,
                        ),
                    ),
            decreases width - x,
        {
            proof {
                assert forall|xx: int, yy: int|
                    0 <= xx < width && 0 <= yy < y implies #[trigger] (yy * width + xx) < y * width
                    + x by {
                    assert(yy * width + xx < y * width + x) by (nonlinear_arith)
                        requires
                            0 <= xx < width,
                            0 <= yy < y,
                            x >= 0;
                }
            }
            newbuf.push(row[x]);
            x = x + 1;
        }
        proof {
            assert((y + 1) * width == y * width + width) by (nonlinear_arith);
            assert forall|xx: int, yy: int|
                0 <= xx < width && 0 <= yy < y + 1 implies 0 <= #[trigger] (yy * width + xx) < (y
                + 1) * width by {
                assert(0 <= yy * width + xx < (y + 1) * width) by (nonlinear_arith)
                    requires
                        0 <= xx < width,
                        0 <= yy < y + 1;
            }
        }
        y = y + 1;
    }
    proof {
        assert(height * width == width * height) by (nonlinear_arith);
    }
    framebuffer.buffer = newbuf;
}

} // verus!
