//! The result record of a ray-object intersection test, and the capability
//! trait the geometric primitives implement.

use vstd::prelude::*;
use crate::color::Color;
use crate::material::Material;
use crate::vec3::Vec3;

verus! {

/// The outcome of intersecting one ray with one object: the hit point, the
/// surface normal there, the fixed-point distance along the ray, a snapshot
/// of the object's material and the UV texture coordinates. `is_intersecting`
/// false marks the empty sentinel; the other fields are then all zero.
#[derive(Debug, Clone, Copy)]
pub struct Intersect {
    pub point: Vec3,
    pub normal: Vec3,
    pub distance: i64,
    pub is_intersecting: bool,
    pub material: Material,
    pub uv: (i64, i64),
}

/// The no-hit sentinel.
pub open spec fn spec_empty_intersect() -> Intersect {
    Intersect {
        point: Vec3 { x: 0i64, y: 0i64, z: 0i64 },
        normal: Vec3 { x: 0i64, y: 0i64, z: 0i64 },
        distance: 0i64,
        is_intersecting: false,
        material: Material {
            diffuse: Color { r: 0u8, g: 0u8, b: 0u8 },
            shininess: 0u32,
            albedo: (0i64, 0i64),
            reflectivity: 0i64,
            transparency: 0i64,
            refraction_index: 0i64,
            has_texture: false,
            texture_index: 0usize,
        },
        uv: (0i64, 0i64),
    }
}

impl Intersect {
    /// A successful intersection record.
    pub fn new(point: Vec3, normal: Vec3, distance: i64, material: Material, uv: (i64, i64)) -> (r:
        Intersect)
        ensures
            r == (Intersect { point, normal, distance, is_intersecting: true, material, uv }),
    {
        Intersect { point, normal, distance, is_intersecting: true, material, uv }
    }

    /// The empty record: no intersection occurred.
    pub fn empty() -> (r: Intersect)
        ensures
            r == spec_empty_intersect(),
    {
        Intersect {
            point: Vec3::zero(),
            normal: Vec3::zero(),
            distance: 0,
            is_intersecting: false,
            material: Material::black(),
            uv: (0, 0),
        }
    }
}

/// The ray-intersection capability: each primitive pins its executable test
/// to a specification-level intersection function of the ray alone.
pub trait RayIntersect {
    /// The intersection record this object answers for the given ray.
    spec fn intersect_spec(&self, ray_origin: Vec3, ray_direction: Vec3) -> Intersect;

    /// Returns the nearest positive-distance hit of the ray with this
    /// object, or the empty sentinel.
    fn ray_intersect(&self, ray_origin: &Vec3, ray_direction: &Vec3) -> (r: Intersect)
        ensures
            r == self.intersect_spec(*ray_origin, *ray_direction),
    ;
}

} // verus!
