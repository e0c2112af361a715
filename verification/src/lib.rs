//! A Whitted-style software ray tracer over fixed-point arithmetic.
//!
//! Scenes are collections of axis-aligned boxes and spheres with Phong-like
//! materials; rays are cast from a look-at camera, shaded with shadows,
//! reflection and refraction, and composed into a packed pixel buffer.
//! All scalar quantities are Q47.16 fixed-point numbers held in `i64`.

pub mod camera;
pub mod castray;
pub mod color;
pub mod fixed;
pub mod framebuffer;
pub mod light;
pub mod material;
pub mod object;
pub mod ray_intersect;
pub mod render;
pub mod texture;
pub mod vec3;
