//! The geometric primitives: axis-aligned boxes and spheres.
//!
//! The primitive set is closed, so the scene holds a tagged `Primitive`
//! variant with a single dispatch of the intersection capability.

use vstd::prelude::*;
use vstd::arithmetic::div_mod::{
    lemma_fundamental_div_mod, lemma_mod_bound, lemma_div_multiples_vanish,
};
use crate::fixed::{
    fx_add, fx_sub, fx_mul, fx_div, fx_sqrt, fx_abs, iabs, clamp64, imax, imin, spec_fx_add,
    spec_fx_sub, spec_fx_mul, spec_fx_div, spec_fx_sqrt, spec_isqrt, is_isqrt, scale_down,
    lemma_isqrt_is_sqrt,
    lemma_isqrt_unique,
};
use crate::material::Material;
use crate::ray_intersect::{Intersect, RayIntersect, spec_empty_intersect};
use crate::vec3::{Vec3, spec_v_add, spec_v_sub, spec_v_scale, spec_v_dot, spec_normalize};

verus! {

/// Tolerance for deciding which axis-aligned face a boundary point lies on:
/// about 1e-4 in fixed point.
pub const FACE_EPS: i64 = 7;

/// An axis-aligned box between its minimum and maximum corners.
#[derive(Debug, Clone, Copy)]
pub struct Cube {
    pub min: Vec3,
    pub max: Vec3,
    pub material: Material,
}

/// A sphere around a center point.
#[derive(Debug, Clone, Copy)]
pub struct Sphere {
    pub center: Vec3,
    pub radius: i64,
    pub material: Material,
}

/// The slab interval one axis contributes: whether the axis admits the ray
/// at all, and the entry/exit parameters it imposes. An axis the ray runs
/// parallel to admits the ray exactly when the origin lies between the
/// bounds, and then imposes no constraint.
pub open spec fn spec_axis_bounds(minb: int, maxb: int, o: int, d: int) -> (bool, int, int) {
    if d == 0 {
        (minb <= o <= maxb, i64::MIN as int, i64::MAX as int)
    } else {
        let t1 = spec_fx_div(spec_fx_sub(minb, o), d);
        let t2 = spec_fx_div(spec_fx_sub(maxb, o), d);
        if t1 <= t2 {
            (true, t1, t2)
        } else {
            (true, t2, t1)
        }
    }
}

/// The slab method's narrowed parameter interval for a box: the meet of the
/// three per-axis intervals.
pub open spec fn spec_cube_interval(c: Cube, o: Vec3, d: Vec3) -> (bool, int, int) {
    let (okx, lx, hx) = spec_axis_bounds(c.min.x as int, c.max.x as int, o.x as int, d.x as int);
    let (oky, ly, hy) = spec_axis_bounds(c.min.y as int, c.max.y as int, o.y as int, d.y as int);
    let (okz, lz, hz) = spec_axis_bounds(c.min.z as int, c.max.z as int, o.z as int, d.z as int);
    (okx && oky && okz, imax(imax(lx, ly), lz), imin(imin(hx, hy), hz))
}

/// The outward unit normal of the box face the point lies on, selected by
/// which bound the point is closest to within `FACE_EPS`; the zero vector if
/// the point is near no face.
pub open spec fn spec_cube_normal(c: Cube, p: Vec3) -> Vec3 {
    if clamp64(iabs(spec_fx_sub(p.x as int, c.min.x as int))) < 7 {
        Vec3 { x: -65536i64, y: 0i64, z: 0i64 }
    } else if clamp64(iabs(spec_fx_sub(p.x as int, c.max.x as int))) < 7 {
        Vec3 { x: 65536i64, y: 0i64, z: 0i64 }
    } else if clamp64(iabs(spec_fx_sub(p.y as int, c.min.y as int))) < 7 {
        Vec3 { x: 0i64, y: -65536i64, z: 0i64 }
    } else if clamp64(iabs(spec_fx_sub(p.y as int, c.max.y as int))) < 7 {
        Vec3 { x: 0i64, y: 65536i64, z: 0i64 }
    } else if clamp64(iabs(spec_fx_sub(p.z as int, c.min.z as int))) < 7 {
        Vec3 { x: 0i64, y: 0i64, z: -65536i64 }
    } else if clamp64(iabs(spec_fx_sub(p.z as int, c.max.z as int))) < 7 {
        Vec3 { x: 0i64, y: 0i64, z: 65536i64 }
    } else {
        Vec3 { x: 0i64, y: 0i64, z: 0i64 }
    }
}

/// Per-face UV coordinates: the two non-normal axes of the face the point
/// lies on, projected into [0,1] local-face coordinates. u runs along one
/// tangent axis and v along the other, both 0 at the box's minimum corner:
/// on the x faces u follows z and v follows y; on the y faces u follows x
/// and v follows z; on the z faces u follows x and v follows y.
pub open spec fn spec_cube_uv(c: Cube, p: Vec3) -> (i64, i64) {
    if clamp64(iabs(spec_fx_sub(p.x as int, c.min.x as int))) < 7 {
        (
            spec_fx_div(
                spec_fx_sub(p.z as int, c.min.z as int),
                spec_fx_sub(c.max.z as int, c.min.z as int),
            ) as i64,
            spec_fx_div(
                spec_fx_sub(p.y as int, c.min.y as int),
                spec_fx_sub(c.max.y as int, c.min.y as int),
            ) as i64,
        )
    } else if clamp64(iabs(spec_fx_sub(p.x as int, c.max.x as int))) < 7 {
        (
            spec_fx_div(
                spec_fx_sub(p.z as int, c.min.z as int),
                spec_fx_sub(c.max.z as int, c.min.z as int),
            ) as i64,
            spec_fx_div(
                spec_fx_sub(p.y as int, c.min.y as int),
                spec_fx_sub(c.max.y as int, c.min.y as int),
            ) as i64,
        )
    } else if clamp64(iabs(spec_fx_sub(p.y as int, c.min.y as int))) < 7 {
        (
            spec_fx_div(
                spec_fx_sub(p.x as int, c.min.x as int),
                spec_fx_sub(c.max.x as int, c.min.x as int),
            ) as i64,
            spec_fx_div(
                spec_fx_sub(p.z as int, c.min.z as int),
                spec_fx_sub(c.max.z as int, c.min.z as int),
            ) as i64,
        )
    } else if clamp64(iabs(spec_fx_sub(p.y as int, c.max.y as int))) < 7 {
        (
            spec_fx_div(
                spec_fx_sub(p.x as int, c.min.x as int),
                spec_fx_sub(c.max.x as int, c.min.x as int),
            ) as i64,
            spec_fx_div(
                spec_fx_sub(p.z as int, c.min.z as int),
                spec_fx_sub(c.max.z as int, c.min.z as int),
            ) as i64,
        )
    } else if clamp64(iabs(spec_fx_sub(p.z as int, c.min.z as int))) < 7 {
        (
            spec_fx_div(
                spec_fx_sub(p.x as int, c.min.x as int),
                spec_fx_sub(c.max.x as int, c.min.x as int),
            ) as i64,
            spec_fx_div(
                spec_fx_sub(p.y as int, c.min.y as int),
                spec_fx_sub(c.max.y as int, c.min.y as int),
            ) as i64,
        )
    } else {
        (
            spec_fx_div(
                spec_fx_sub(p.x as int, c.min.x as int),
                spec_fx_sub(c.max.x as int, c.min.x as int),
            ) as i64,
            spec_fx_div(
                spec_fx_sub(p.y as int, c.min.y as int),
                spec_fx_sub(c.max.y as int, c.min.y as int),
            ) as i64,
        )
    }
}

/// The box intersection: the nearest positive parameter of the slab
/// interval — its entry parameter when that is positive, else its exit
/// parameter (the ray starts inside the box) — with normal and UV derived
/// from the hit point. The empty sentinel comes only when the interval is
/// empty or lies entirely behind the ray; a degenerate all-zero direction
/// constrains no axis and is answered with the sentinel outright.
pub open spec fn spec_cube_intersect(c: Cube, o: Vec3, d: Vec3) -> Intersect {
    let (ok, tmin, tmax) = spec_cube_interval(c, o, d);
    if (d.x == 0 && d.y == 0 && d.z == 0) || !ok || tmin > tmax || tmax <= 0 {
        spec_empty_intersect()
    } else {
        let t = if tmin > 0 { tmin } else { tmax };
        let point = spec_v_add(o, spec_v_scale(d, t));
        Intersect {
            point,
            normal: spec_cube_normal(c, point),
            distance: t as i64,
            is_intersecting: true,
            material: c.material,
            uv: spec_cube_uv(c, point),
        }
    }
}

/// The sphere intersection by the classic quadratic: reject when the squared
/// closest-approach distance exceeds the squared radius, otherwise take the
/// smaller positive root. A degenerate all-zero direction is answered with
/// the sentinel outright.
pub open spec fn spec_sphere_intersect(s: Sphere, o: Vec3, d: Vec3) -> Intersect {
    let l = spec_v_sub(s.center, o);
    let tca = spec_v_dot(l, d);
    let d2 = spec_fx_sub(spec_v_dot(l, l), spec_fx_mul(tca, tca));
    let r2 = spec_fx_mul(s.radius as int, s.radius as int);
    if (d.x == 0 && d.y == 0 && d.z == 0) || d2 > r2 {
        spec_empty_intersect()
    } else {
        let thc = spec_fx_sqrt(spec_fx_sub(r2, d2));
        let t0 = spec_fx_sub(tca, thc);
        let t1 = spec_fx_add(tca, thc);
        let t = if t0 > 0 { t0 } else { t1 };
        if t <= 0 {
            spec_empty_intersect()
        } else {
            let point = spec_v_add(o, spec_v_scale(d, t));
            Intersect {
                point,
                normal: spec_normalize(spec_v_sub(point, s.center)),
                distance: t as i64,
                is_intersecting: true,
                material: s.material,
                uv: (0i64, 0i64),
            }
        }
    }
}

impl Cube {
    /// The outward unit normal of the face the point lies on.
    pub fn calculate_normal(&self, point: &Vec3) -> (n: Vec3)
        ensures
            n == spec_cube_normal(*self, *point),
    {
        if fx_abs(fx_sub(point.x, self.min.x)) < FACE_EPS {
            Vec3 { x: -65536, y: 0, z: 0 }
        } else if fx_abs(fx_sub(point.x, self.max.x)) < FACE_EPS {
            Vec3 { x: 65536, y: 0, z: 0 }
        } else if fx_abs(fx_sub(point.y, self.min.y)) < FACE_EPS {
            Vec3 { x: 0, y: -65536, z: 0 }
        } else if fx_abs(fx_sub(point.y, self.max.y)) < FACE_EPS {
            Vec3 { x: 0, y: 65536, z: 0 }
        } else if fx_abs(fx_sub(point.z, self.min.z)) < FACE_EPS {
            Vec3 { x: 0, y: 0, z: -65536 }
        } else if fx_abs(fx_sub(point.z, self.max.z)) < FACE_EPS {
            Vec3 { x: 0, y: 0, z: 65536 }
        } else {
            Vec3 { x: 0, y: 0, z: 0 }
        }
    }

    /// The per-face UV texture coordinates at the point.
    pub fn calculate_uv(&self, point: &Vec3) -> (uv: (i64, i64))
        ensures
            uv == spec_cube_uv(*self, *point),
    {
        if fx_abs(fx_sub(point.x, self.min.x)) < FACE_EPS {
            let u = fx_div(fx_sub(point.z, self.min.z), fx_sub(self.max.z, self.min.z));
            let v = fx_div(fx_sub(point.y, self.min.y), fx_sub(self.max.y, self.min.y));
            (u, v)
        } else if fx_abs(fx_sub(point.x, self.max.x)) < FACE_EPS {
            let u = fx_div(fx_sub(point.z, self.min.z), fx_sub(self.max.z, self.min.z));
            let v = fx_div(fx_sub(point.y, self.min.y), fx_sub(self.max.y, self.min.y));
            (u, v)
        } else if fx_abs(fx_sub(point.y, self.min.y)) < FACE_EPS {
            let u = fx_div(fx_sub(point.x, self.min.x), fx_sub(self.max.x, self.min.x));
            let v = fx_div(fx_sub(point.z, self.min.z), fx_sub(self.max.z, self.min.z));
            (u, v)
        } else if fx_abs(fx_sub(point.y, self.max.y)) < FACE_EPS {
            let u = fx_div(fx_sub(point.x, self.min.x), fx_sub(self.max.x, self.min.x));
            let v = fx_div(fx_sub(point.z, self.min.z), fx_sub(self.max.z, self.min.z));
            (u, v)
        } else if fx_abs(fx_sub(point.z, self.min.z)) < FACE_EPS {
            let u = fx_div(fx_sub(point.x, self.min.x), fx_sub(self.max.x, self.min.x));
            let v = fx_div(fx_sub(point.y, self.min.y), fx_sub(self.max.y, self.min.y));
            (u, v)
        } else {
            let u = fx_div(fx_sub(point.x, self.min.x), fx_sub(self.max.x, self.min.x));
            let v = fx_div(fx_sub(point.y, self.min.y), fx_sub(self.max.y, self.min.y));
            (u, v)
        }
    }
}

impl RayIntersect for Cube {
    open spec fn intersect_spec(&self, ray_origin: Vec3, ray_direction: Vec3) -> Intersect {
        spec_cube_intersect(*self, ray_origin, ray_direction)
    }

    /// The slab method: each axis progressively narrows the parameter
    /// interval; an axis the ray runs parallel to rejects the ray if the
    /// origin lies outside that slab and narrows nothing otherwise. The hit
    /// is the interval's entry parameter, or its exit parameter when the
    /// ray starts inside the box.
    fn ray_intersect(&self, ray_origin: &Vec3, ray_direction: &Vec3) -> (r: Intersect)
        ensures
            r == self.intersect_spec(*ray_origin, *ray_direction),
    {
        if ray_direction.x == 0 && ray_direction.y == 0 && ray_direction.z == 0 {
            return Intersect::empty();
        }
        let mut tmin: i64 = i64::MIN;
        let mut tmax: i64 = i64::MAX;

        if ray_direction.x == 0 {
            if ray_origin.x < self.min.x || ray_origin.x > self.max.x {
                return Intersect::empty();
            }
        } else {
            let t1 = fx_div(fx_sub(self.min.x, ray_origin.x), ray_direction.x);
            let t2 = fx_div(fx_sub(self.max.x, ray_origin.x), ray_direction.x);
            let lo = if t1 <= t2 { t1 } else { t2 };
            let hi = if t1 <= t2 { t2 } else { t1 };
            if lo > tmin {
                tmin = lo;
            }
            if hi < tmax {
                tmax = hi;
            }
        }

        if ray_direction.y == 0 {
            if ray_origin.y < self.min.y || ray_origin.y > self.max.y {
                return Intersect::empty();
            }
        } else {
            let t1 = fx_div(fx_sub(self.min.y, ray_origin.y), ray_direction.y);
            let t2 = fx_div(fx_sub(self.max.y, ray_origin.y), ray_direction.y);
            let lo = if t1 <= t2 { t1 } else { t2 };
            let hi = if t1 <= t2 { t2 } else { t1 };
            if lo > tmin {
                tmin = lo;
            }
            if hi < tmax {
                tmax = hi;
            }
        }

        if ray_direction.z == 0 {
            if ray_origin.z < self.min.z || ray_origin.z > self.max.z {
                return Intersect::empty();
            }
        } else {
            let t1 = fx_div(fx_sub(self.min.z, ray_origin.z), ray_direction.z);
            let t2 = fx_div(fx_sub(self.max.z, ray_origin.z), ray_direction.z);
            let lo = if t1 <= t2 { t1 } else { t2 };
            let hi = if t1 <= t2 { t2 } else { t1 };
            if lo > tmin {
                tmin = lo;
            }
            if hi < tmax {
                tmax = hi;
            }
        }

        if tmin > tmax || tmax <= 0 {
            return Intersect::empty();
        }
        let t = if tmin > 0 { tmin } else { tmax };
        let point = ray_origin.add(&ray_direction.scale(t));
        let normal = self.calculate_normal(&point);
        let uv = self.calculate_uv(&point);
        Intersect::new(point, normal, t, self.material, uv)
    }
}

impl RayIntersect for Sphere {
    open spec fn intersect_spec(&self, ray_origin: Vec3, ray_direction: Vec3) -> Intersect {
        spec_sphere_intersect(*self, ray_origin, ray_direction)
    }

    fn ray_intersect(&self, ray_origin: &Vec3, ray_direction: &Vec3) -> (r: Intersect)
        ensures
            r == self.intersect_spec(*ray_origin, *ray_direction),
    {
        if ray_direction.x == 0 && ray_direction.y == 0 && ray_direction.z == 0 {
            return Intersect::empty();
        }
        let l = self.center.sub(ray_origin);
        let tca = l.dot(ray_direction);
        let d2 = fx_sub(l.dot(&l), fx_mul(tca, tca));
        let r2 = fx_mul(self.radius, self.radius);
        if d2 > r2 {
            return Intersect::empty();
        }
        let thc = fx_sqrt(fx_sub(r2, d2));
        let t0 = fx_sub(tca, thc);
        let t1 = fx_add(tca, thc);
        let t = if t0 > 0 { t0 } else { t1 };
        if t <= 0 {
            return Intersect::empty();
        }
        let point = ray_origin.add(&ray_direction.scale(t));
        let normal = point.sub(&self.center).normalize();
        Intersect::new(point, normal, t, self.material, (0, 0))
    }
}

/// The closed set of scene primitives.
#[derive(Debug, Clone, Copy)]
pub enum Primitive {
    Cube(Cube),
    Sphere(Sphere),
}

/// The material a primitive carries.
pub open spec fn material_of(p: Primitive) -> Material {
    match p {
        Primitive::Cube(c) => c.material,
        Primitive::Sphere(s) => s.material,
    }
}

impl RayIntersect for Primitive {
    open spec fn intersect_spec(&self, ray_origin: Vec3, ray_direction: Vec3) -> Intersect {
        match *self {
            Primitive::Cube(c) => spec_cube_intersect(c, ray_origin, ray_direction),
            Primitive::Sphere(s) => spec_sphere_intersect(s, ray_origin, ray_direction),
        }
    }

    fn ray_intersect(&self, ray_origin: &Vec3, ray_direction: &Vec3) -> (r: Intersect)
        ensures
            r == self.intersect_spec(*ray_origin, *ray_direction),
    {
        match self {
            Primitive::Cube(c) => c.ray_intersect(ray_origin, ray_direction),
            Primitive::Sphere(s) => s.ray_intersect(ray_origin, ray_direction),
        }
    }
}

/// A box intersection's normal is one of the six axis-aligned unit vectors
/// or zero, and whenever it is a face's unit normal, the hit point's
/// corresponding coordinate lies within the face tolerance of that bound:
/// the point sits on the box boundary the normal names.
pub proof fn lemma_box_normal_on_face(c: Cube, o: Vec3, d: Vec3)
    requires
        spec_cube_intersect(c, o, d).is_intersecting,
    ensures
        ({
            let inter = spec_cube_intersect(c, o, d);
            let p = inter.point;
            let n = inter.normal;
            ||| (n == (Vec3 { x: -65536i64, y: 0i64, z: 0i64 }) && clamp64(
                iabs(spec_fx_sub(p.x as int, c.min.x as int)),
            ) < 7)
            ||| (n == (Vec3 { x: 65536i64, y: 0i64, z: 0i64 }) && clamp64(
                iabs(spec_fx_sub(p.x as int, c.max.x as int)),
            ) < 7)
            ||| (n == (Vec3 { x: 0i64, y: -65536i64, z: 0i64 }) && clamp64(
                iabs(spec_fx_sub(p.y as int, c.min.y as int)),
            ) < 7)
            ||| (n == (Vec3 { x: 0i64, y: 65536i64, z: 0i64 }) && clamp64(
                iabs(spec_fx_sub(p.y as int, c.max.y as int)),
            ) < 7)
            ||| (n == (Vec3 { x: 0i64, y: 0i64, z: -65536i64 }) && clamp64(
                iabs(spec_fx_sub(p.z as int, c.min.z as int)),
            ) < 7)
            ||| (n == (Vec3 { x: 0i64, y: 0i64, z: 65536i64 }) && clamp64(
                iabs(spec_fx_sub(p.z as int, c.max.z as int)),
            ) < 7)
            ||| n == (Vec3 { x: 0i64, y: 0i64, z: 0i64 })
        }),
{
}

/// A slab parameter never saturates when the scene sits within 2^24 units
/// of the origin and the direction components are at most one unit.
proof fn lemma_axis_param_bounded(b: i64, oa: i64, da: i64)
    requires
        iabs(b as int) <= 0x10000000000,
        iabs(oa as int) <= 0x10000000000,
        da != 0,
        iabs(da as int) <= 65536,
    ensures
        iabs(spec_fx_div(spec_fx_sub(b as int, oa as int), da as int)) <= 0x200000000000000,
{
    let delta = b - oa;
    assert(spec_fx_sub(b as int, oa as int) == delta);
    let ad = iabs(delta as int);
    let dd = iabs(da as int);
    let aa = ad * 65536;
    let q = aa / dd;
    lemma_fundamental_div_mod(aa, dd);
    lemma_mod_bound(aa, dd);
    assert(0 <= q <= aa) by (nonlinear_arith)
        requires
            aa == dd * q + aa % dd,
            0 <= aa % dd < dd,
            1 <= dd,
            0 <= aa;
}

/// One slab parameter, carried back through the ray equation, lands within
/// one fixed-point step of the bound that produced it: the two truncating
/// operations (the slab division and the ray scaling) each lose less than
/// one step, in opposite stages of the same magnitude.
proof fn lemma_axis_param_lands_on_bound(b: i64, oa: i64, da: i64, t: int)
    requires
        iabs(b as int) <= 0x10000000000,
        iabs(oa as int) <= 0x10000000000,
        da != 0,
        iabs(da as int) <= 65536,
        t == spec_fx_div(spec_fx_sub(b as int, oa as int), da as int),
    ensures
        iabs(spec_fx_add(oa as int, spec_fx_mul(da as int, t)) - b) <= 1,
{
    let delta = b - oa;
    assert(spec_fx_sub(b as int, oa as int) == delta);
    let ad = iabs(delta as int);
    let dd = iabs(da as int);
    let aa = ad * 65536;
    let q = aa / dd;
    lemma_fundamental_div_mod(aa, dd);
    lemma_mod_bound(aa, dd);
    let r = aa % dd;
    assert(aa == dd * q + r && 0 <= r < dd);
    assert(0 <= q <= aa) by (nonlinear_arith)
        requires
            aa == dd * q + r,
            0 <= r < dd,
            1 <= dd,
            0 <= aa;
    assert(t == (if (delta >= 0) == (da >= 0) {
        q
    } else {
        -q
    }));

    // the product back along the ray is the sign of the offset times the
    // exact magnitude dd * q
    let p = dd * q;
    assert(p == aa - r);
    if da >= 0 {
        if delta >= 0 {
            assert(da * t == p) by (nonlinear_arith)
                requires
                    t == q,
                    dd == da,
                    p == dd * q;
        } else {
            assert(da * t == -p) by (nonlinear_arith)
                requires
                    t == -q,
                    dd == da,
                    p == dd * q;
        }
    } else {
        if delta >= 0 {
            assert(da * t == p) by (nonlinear_arith)
                requires
                    t == -q,
                    dd == -(da as int),
                    p == dd * q;
        } else {
            assert(da * t == -p) by (nonlinear_arith)
                requires
                    t == q,
                    dd == -(da as int),
                    p == dd * q;
        }
    }

    if ad == 0 {
        assert(spec_fx_mul(da as int, t) == 0);
        assert(spec_fx_add(oa as int, 0) == oa);
    } else {
        // p sits in (65536 (ad - 1), 65536 ad], so rescaling truncates to
        // ad or ad - 1
        assert(65536 * (ad - 1) < p <= 65536 * ad) by (nonlinear_arith)
            requires
                p == aa - r,
                aa == ad * 65536,
                0 <= r < dd,
                dd <= 65536,
                1 <= ad;
        let g = p / 65536;
        lemma_fundamental_div_mod(p, 65536);
        lemma_mod_bound(p, 65536);
        assert(ad - 1 <= g <= ad) by (nonlinear_arith)
            requires
                p == 65536 * g + p % 65536,
                0 <= p % 65536 < 65536,
                65536 * (ad - 1) < p <= 65536 * ad;
        if delta >= 0 {
            assert(scale_down(da * t) == g);
            assert(spec_fx_mul(da as int, t) == g);
            assert(iabs(spec_fx_add(oa as int, g) - b) <= 1);
        } else {
            assert(scale_down(da * t) == -g);
            assert(spec_fx_mul(da as int, t) == -g);
            assert(iabs(spec_fx_add(oa as int, -g) - b) <= 1);
        }
    }
}

/// A box hit point lies on the box boundary: some coordinate of the point
/// is within one fixed-point step of the bound whose slab parameter
/// produced the hit, so the face-selection tolerance always fires and the
/// normal is one of the six axis-aligned unit vectors, never the zero
/// vector. Stated for direction components of at most one unit (every
/// normalized direction qualifies) and scene coordinates within 2^24
/// units.
pub proof fn lemma_box_hit_on_boundary(c: Cube, o: Vec3, d: Vec3)
    requires
        spec_cube_intersect(c, o, d).is_intersecting,
        iabs(o.x as int) <= 0x10000000000,
        iabs(o.y as int) <= 0x10000000000,
        iabs(o.z as int) <= 0x10000000000,
        iabs(c.min.x as int) <= 0x10000000000,
        iabs(c.min.y as int) <= 0x10000000000,
        iabs(c.min.z as int) <= 0x10000000000,
        iabs(c.max.x as int) <= 0x10000000000,
        iabs(c.max.y as int) <= 0x10000000000,
        iabs(c.max.z as int) <= 0x10000000000,
        iabs(d.x as int) <= 65536,
        iabs(d.y as int) <= 65536,
        iabs(d.z as int) <= 65536,
    ensures
        ({
            let p = spec_cube_intersect(c, o, d).point;
            ||| iabs(p.x - c.min.x) <= 1
            ||| iabs(p.x - c.max.x) <= 1
            ||| iabs(p.y - c.min.y) <= 1
            ||| iabs(p.y - c.max.y) <= 1
            ||| iabs(p.z - c.min.z) <= 1
            ||| iabs(p.z - c.max.z) <= 1
        }),
        spec_cube_intersect(c, o, d).normal != (Vec3 { x: 0i64, y: 0i64, z: 0i64 }),
{
    let (ok, tmin, tmax) = spec_cube_interval(c, o, d);
    let t = if tmin > 0 { tmin } else { tmax };
    let inter = spec_cube_intersect(c, o, d);
    let p = inter.point;
    assert(!(d.x == 0 && d.y == 0 && d.z == 0));
    assert(ok && tmin <= tmax && tmax > 0 && t > 0);

    // no nonparallel axis parameter saturates, so the winning parameter is
    // a real one: the signed extremes a parallel axis contributes would
    // put t outside (0, tmax]
    if d.x != 0 {
        lemma_axis_param_bounded(c.min.x, o.x, d.x);
        lemma_axis_param_bounded(c.max.x, o.x, d.x);
    }
    if d.y != 0 {
        lemma_axis_param_bounded(c.min.y, o.y, d.y);
        lemma_axis_param_bounded(c.max.y, o.y, d.y);
    }
    if d.z != 0 {
        lemma_axis_param_bounded(c.min.z, o.z, d.z);
        lemma_axis_param_bounded(c.max.z, o.z, d.z);
    }
    assert(t <= 0x200000000000000);

    let t1x = spec_fx_div(spec_fx_sub(c.min.x as int, o.x as int), d.x as int);
    let t2x = spec_fx_div(spec_fx_sub(c.max.x as int, o.x as int), d.x as int);
    let t1y = spec_fx_div(spec_fx_sub(c.min.y as int, o.y as int), d.y as int);
    let t2y = spec_fx_div(spec_fx_sub(c.max.y as int, o.y as int), d.y as int);
    let t1z = spec_fx_div(spec_fx_sub(c.min.z as int, o.z as int), d.z as int);
    let t2z = spec_fx_div(spec_fx_sub(c.max.z as int, o.z as int), d.z as int);

    assert(p.x as int == spec_fx_add(o.x as int, spec_fx_mul(d.x as int, t)));
    assert(p.y as int == spec_fx_add(o.y as int, spec_fx_mul(d.y as int, t)));
    assert(p.z as int == spec_fx_add(o.z as int, spec_fx_mul(d.z as int, t)));

    if d.x != 0 && t == t1x {
        lemma_axis_param_lands_on_bound(c.min.x, o.x, d.x, t);
        assert(iabs(p.x - c.min.x) <= 1);
    } else if d.x != 0 && t == t2x {
        lemma_axis_param_lands_on_bound(c.max.x, o.x, d.x, t);
        assert(iabs(p.x - c.max.x) <= 1);
    } else if d.y != 0 && t == t1y {
        lemma_axis_param_lands_on_bound(c.min.y, o.y, d.y, t);
        assert(iabs(p.y - c.min.y) <= 1);
    } else if d.y != 0 && t == t2y {
        lemma_axis_param_lands_on_bound(c.max.y, o.y, d.y, t);
        assert(iabs(p.y - c.max.y) <= 1);
    } else if d.z != 0 && t == t1z {
        lemma_axis_param_lands_on_bound(c.min.z, o.z, d.z, t);
        assert(iabs(p.z - c.min.z) <= 1);
    } else {
        assert(d.z != 0 && t == t2z);
        lemma_axis_param_lands_on_bound(c.max.z, o.z, d.z, t);
        assert(iabs(p.z - c.max.z) <= 1);
    }
}

/// A sphere intersection's normal is exactly the normalized vector from the
/// sphere's center to the hit point.
pub proof fn lemma_sphere_normal(s: Sphere, o: Vec3, d: Vec3)
    requires
        spec_sphere_intersect(s, o, d).is_intersecting,
    ensures
        ({
            let inter = spec_sphere_intersect(s, o, d);
            inter.normal == spec_normalize(spec_v_sub(inter.point, s.center))
        }),
{
}

/// A ray aimed directly at a sphere's center from outside hits it, and the
/// reported distance is the distance from the ray origin to the center
/// minus the radius, up to one fixed-point step of square-root truncation.
/// Stated for an exactly representable aim: the origin is displaced from
/// the center along one axis and the direction is that axis's unit vector,
/// with the geometry in the range where no fixed-point operation saturates.
pub proof fn lemma_sphere_axis_distance(s: Sphere, o: Vec3)
    requires
        o.x == s.center.x,
        o.y == s.center.y,
        s.center.z < o.z,
        32769 <= s.radius,
        s.radius + 2 <= o.z - s.center.z <= 0x80000000,
    ensures
        ({
            let d = Vec3 { x: 0i64, y: 0i64, z: -65536i64 };
            let inter = spec_sphere_intersect(s, o, d);
            let m = crate::vec3::spec_magnitude(spec_v_sub(o, s.center));
            &&& m == o.z - s.center.z
            &&& inter.is_intersecting
            &&& m - s.radius <= inter.distance <= m - s.radius + 1
        }),
{
    let d = Vec3 { x: 0i64, y: 0i64, z: -65536i64 };
    let k = o.z - s.center.z;
    let rr = s.radius as int;

    // the distance from the origin to the center is exactly k
    let away = spec_v_sub(o, s.center);
    assert(away.x as int == 0 && away.y as int == 0 && away.z as int == k);
    assert(0 * 0 == 0 && k * k >= 0) by (nonlinear_arith);
    assert(is_isqrt(k * k, k)) by (nonlinear_arith)
        requires
            k >= 0;
    lemma_isqrt_is_sqrt((k * k) as nat);
    lemma_isqrt_unique(k * k, spec_isqrt((k * k) as nat) as int, k);
    assert(crate::vec3::spec_magnitude(away) == k);

    // the vector from the origin to the center, and the aimed dot products
    let l = spec_v_sub(s.center, o);
    assert(l.x as int == 0 && l.y as int == 0 && l.z as int == -k);
    assert((-k) * (-65536) == 65536 * k && (-k) * (-k) == k * k) by (nonlinear_arith);
    lemma_div_multiples_vanish(k, 65536);
    assert(spec_fx_mul(l.z as int, d.z as int) == k);
    assert(spec_v_dot(l, d) == k);
    let q2 = (k * k) / 65536;
    lemma_fundamental_div_mod(k * k, 65536);
    lemma_mod_bound(k * k, 65536);
    assert(0 <= q2 <= k * k);
    assert(k * k <= 0x80000000 * 0x80000000) by (nonlinear_arith)
        requires
            0 <= k <= 0x80000000;
    assert(spec_fx_mul(l.z as int, l.z as int) == q2);
    assert(spec_v_dot(l, l) == q2);
    assert(spec_fx_mul(spec_v_dot(l, d), spec_v_dot(l, d)) == q2);

    // the closest-approach term vanishes: the ray passes through the center
    let d2 = spec_fx_sub(spec_v_dot(l, l), spec_fx_mul(spec_v_dot(l, d), spec_v_dot(l, d)));
    assert(d2 == 0);

    // the squared radius, rescaled with truncation
    let qr = (rr * rr) / 65536;
    lemma_fundamental_div_mod(rr * rr, 65536);
    lemma_mod_bound(rr * rr, 65536);
    assert(0 <= rr * rr && rr * rr <= k * k) by (nonlinear_arith)
        requires
            0 <= rr <= k;
    assert(0 <= qr <= rr * rr);
    assert(spec_fx_mul(rr, rr) == qr);
    assert(!(d2 > qr));

    // the truncated square root of the rescaled squared radius is within
    // one step of the radius itself
    let x = qr * 65536;
    assert(rr * rr - 65536 < x <= rr * rr);
    let thc = spec_fx_sqrt(spec_fx_sub(qr, d2));
    assert(spec_fx_sub(qr, d2) == qr);
    assert(thc == spec_isqrt(x as nat) as int);
    lemma_isqrt_is_sqrt(x as nat);
    assert(rr - 1 <= thc <= rr) by (nonlinear_arith)
        requires
            32769 <= rr,
            0 <= thc,
            thc * thc <= x,
            x < (thc + 1) * (thc + 1),
            rr * rr - 65536 < x <= rr * rr;

    // the smaller root is positive and lands within one step of m - radius
    let t0 = spec_fx_sub(spec_v_dot(l, d), thc);
    assert(t0 == k - thc);
    assert(t0 > 0);
    let inter = spec_sphere_intersect(s, o, d);
    assert(inter.is_intersecting && inter.distance == k - thc);
}

/// Any intersection a primitive reports carries that primitive's own
/// material; the empty sentinel carries the all-zero material, which binds
/// no texture.
pub proof fn lemma_intersect_material(p: Primitive, o: Vec3, d: Vec3)
    ensures
        p.intersect_spec(o, d).is_intersecting ==> p.intersect_spec(o, d).material == material_of(
            p,
        ),
        !p.intersect_spec(o, d).is_intersecting ==> !p.intersect_spec(o, d).material.has_texture,
{
}

} // verus!
