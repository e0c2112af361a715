//! Per-surface reflectance parameters.
//!
//! A material either carries a plain diffuse color or binds a texture by its
//! index into the scene's shared texture table; the flag `has_texture`
//! selects between the two. Weights (albedo, reflectivity, transparency) and
//! the refraction index are fixed-point; the specular exponent is a plain
//! integer.

use vstd::prelude::*;
use crate::color::Color;
use crate::texture::Texture;

verus! {

/// The texture slots a scene can bind, each mapped to a stable index into
/// the texture table.
#[allow(non_camel_case_types)]
#[derive(Debug, Clone, Copy)]
pub enum TextureType {
    Ice,
    Birch,
    Flower,
    Ffront,
    Snow_top,
    Fside,
    Ftop,
}

pub open spec fn spec_texture_slot(t: TextureType) -> int {
    match t {
        TextureType::Ice => 0,
        TextureType::Birch => 1,
        TextureType::Flower => 2,
        TextureType::Ffront => 3,
        TextureType::Snow_top => 4,
        TextureType::Fside => 5,
        TextureType::Ftop => 6,
    }
}

#[derive(Debug, Clone, Copy)]
pub struct Material {
    pub diffuse: Color,
    /// Specular (Phong) exponent.
    pub shininess: u32,
    /// (diffuse weight, specular weight), fixed point.
    pub albedo: (i64, i64),
    /// Mirror-reflected fraction of the incoming light, fixed point in [0,1].
    pub reflectivity: i64,
    /// Refracted fraction of the incoming light, fixed point in [0,1].
    pub transparency: i64,
    /// Index of refraction, fixed point.
    pub refraction_index: i64,
    pub has_texture: bool,
    pub texture_index: usize,
}

/// The diffuse color a material shows at UV coordinates (u, v): its bound
/// texture sampled there, or its flat diffuse color.
pub open spec fn spec_get_diffuse_color(
    m: Material,
    textures: Seq<Texture>,
    u: int,
    v: int,
) -> Color {
    if m.has_texture {
        textures[m.texture_index as int].spec_sample(u, v)
    } else {
        m.diffuse
    }
}

/// A material may only name texture indexes that the table holds, and only
/// well-formed textures.
pub open spec fn material_wf(m: Material, textures: Seq<Texture>) -> bool {
    m.has_texture ==> {
        &&& m.texture_index < textures.len()
        &&& textures[m.texture_index as int].wf()
    }
}

impl Material {
    /// A material with a flat diffuse color and no texture.
    pub fn new(
        diffuse: Color,
        shininess: u32,
        albedo: (i64, i64),
        reflectivity: i64,
        transparency: i64,
        refraction_index: i64,
    ) -> (m: Material)
        ensures
            m == (Material {
                diffuse,
                shininess,
                albedo,
                reflectivity,
                transparency,
                refraction_index,
                has_texture: false,
                texture_index: 0,
            }),
    {
        Material {
            diffuse,
            shininess,
            albedo,
            reflectivity,
            transparency,
            refraction_index,
            has_texture: false,
            texture_index: 0,
        }
    }

    /// A material bound to one of the named texture slots.
    pub fn new_with_texture(
        shininess: u32,
        albedo: (i64, i64),
        reflectivity: i64,
        transparency: i64,
        refraction_index: i64,
        texture_type: TextureType,
    ) -> (m: Material)
        ensures
            m.diffuse == (Color { r: 0u8, g: 0u8, b: 0u8 }),
            m.shininess == shininess,
            m.albedo == albedo,
            m.reflectivity == reflectivity,
            m.transparency == transparency,
            m.refraction_index == refraction_index,
            m.has_texture,
            m.texture_index == spec_texture_slot(texture_type),
    {
        let texture_index: usize = match texture_type {
            TextureType::Ice => 0,
            TextureType::Birch => 1,
            TextureType::Flower => 2,
            TextureType::Ffront => 3,
            TextureType::Snow_top => 4,
            TextureType::Fside => 5,
            TextureType::Ftop => 6,
        };
        Material {
            diffuse: Color::black(),
            shininess,
            albedo,
            reflectivity,
            transparency,
            refraction_index,
            has_texture: true,
            texture_index,
        }
    }

    /// The diffuse color at UV coordinates (u, v): the bound texture sampled
    /// there, or the flat diffuse color.
    pub fn get_diffuse_color(&self, textures: &[Texture], u: i64, v: i64) -> (c: Color)
        requires
            material_wf(*self, textures@),
        ensures
            c == spec_get_diffuse_color(*self, textures@, u as int, v as int),
    {
        if self.has_texture {
            let t: &Texture = &textures[self.texture_index];
            t.sample(u, v)
        } else {
            self.diffuse
        }
    }

    /// The all-zero material.
    pub fn black() -> (m: Material)
        ensures
            m == (Material {
                diffuse: Color { r: 0u8, g: 0u8, b: 0u8 },
                shininess: 0u32,
                albedo: (0i64, 0i64),
                reflectivity: 0i64,
                transparency: 0i64,
                refraction_index: 0i64,
                has_texture: false,
                texture_index: 0usize,
            }),
    {
        Material {
            diffuse: Color::black(),
            shininess: 0,
            albedo: (0, 0),
            reflectivity: 0,
            transparency: 0,
            refraction_index: 0,
            has_texture: false,
            texture_index: 0,
        }
    }
}

} // verus!
