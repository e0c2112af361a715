//! 3D vector algebra over fixed-point scalars.
//!
//! Vectors serve as positions, directions and surface normals. Direction
//! vectors handed to the intersection and shading layers are normalized by
//! their producers; `normalize` makes the unit length precise up to the
//! fixed-point truncation bounded in `lemma_normalize_unit`.

use vstd::prelude::*;
use vstd::arithmetic::div_mod::{lemma_fundamental_div_mod, lemma_mod_bound};
use crate::fixed::{
    fx_add, fx_sub, fx_mul, fx_div, isqrt, iabs, clamp64, spec_fx_add, spec_fx_sub, spec_fx_mul,
    spec_fx_div, spec_isqrt, lemma_isqrt_is_sqrt,
};

verus! {

/// A triple of Q47.16 fixed-point coordinates.
#[derive(Debug, Clone, Copy, PartialEq, Eq, Structural)]
pub struct Vec3 {
    pub x: i64,
    pub y: i64,
    pub z: i64,
}

pub open spec fn spec_v_add(a: Vec3, b: Vec3) -> Vec3 {
    Vec3 {
        x: spec_fx_add(a.x as int, b.x as int) as i64,
        y: spec_fx_add(a.y as int, b.y as int) as i64,
        z: spec_fx_add(a.z as int, b.z as int) as i64,
    }
}

pub open spec fn spec_v_sub(a: Vec3, b: Vec3) -> Vec3 {
    Vec3 {
        x: spec_fx_sub(a.x as int, b.x as int) as i64,
        y: spec_fx_sub(a.y as int, b.y as int) as i64,
        z: spec_fx_sub(a.z as int, b.z as int) as i64,
    }
}

pub open spec fn spec_v_scale(a: Vec3, s: int) -> Vec3 {
    Vec3 {
        x: spec_fx_mul(a.x as int, s) as i64,
        y: spec_fx_mul(a.y as int, s) as i64,
        z: spec_fx_mul(a.z as int, s) as i64,
    }
}

pub open spec fn spec_v_neg(a: Vec3) -> Vec3 {
    Vec3 {
        x: clamp64(-(a.x as int)) as i64,
        y: clamp64(-(a.y as int)) as i64,
        z: clamp64(-(a.z as int)) as i64,
    }
}

pub open spec fn spec_v_dot(a: Vec3, b: Vec3) -> int {
    spec_fx_add(
        spec_fx_add(spec_fx_mul(a.x as int, b.x as int), spec_fx_mul(a.y as int, b.y as int)),
        spec_fx_mul(a.z as int, b.z as int),
    )
}

pub open spec fn spec_v_cross(a: Vec3, b: Vec3) -> Vec3 {
    Vec3 {
        x: spec_fx_sub(spec_fx_mul(a.y as int, b.z as int), spec_fx_mul(a.z as int, b.y as int))
            as i64,
        y: spec_fx_sub(spec_fx_mul(a.z as int, b.x as int), spec_fx_mul(a.x as int, b.z as int))
            as i64,
        z: spec_fx_sub(spec_fx_mul(a.x as int, b.y as int), spec_fx_mul(a.y as int, b.x as int))
            as i64,
    }
}

/// The exact squared length, at twice the fixed-point scale.
pub open spec fn spec_norm2(a: Vec3) -> int {
    a.x * a.x + a.y * a.y + a.z * a.z
}

/// The fixed-point length: the integer square root of the raw squared length,
/// saturated at the `i64` range.
pub open spec fn spec_magnitude(a: Vec3) -> int {
    clamp64(spec_isqrt(spec_norm2(a) as nat) as int)
}

/// Componentwise quotient by the length; the zero vector maps to itself.
pub open spec fn spec_normalize(a: Vec3) -> Vec3 {
    let m = spec_magnitude(a);
    if m == 0 {
        Vec3 { x: 0, y: 0, z: 0 }
    } else {
        Vec3 {
            x: spec_fx_div(a.x as int, m) as i64,
            y: spec_fx_div(a.y as int, m) as i64,
            z: spec_fx_div(a.z as int, m) as i64,
        }
    }
}

fn abs64(v: i64) -> (r: u64)
    ensures
        r == iabs(v as int),
{
    if v >= 0 {
        v as u64
    } else {
        (-(v as i128)) as u64
    }
}

impl Vec3 {
    pub fn new(x: i64, y: i64, z: i64) -> (r: Vec3)
        ensures
            r == (Vec3 { x, y, z }),
    {
        Vec3 { x, y, z }
    }

    pub fn zero() -> (r: Vec3)
        ensures
            r == (Vec3 { x: 0i64, y: 0i64, z: 0i64 }),
    {
        Vec3 { x: 0, y: 0, z: 0 }
    }

    /// Componentwise saturating addition.
    pub fn add(&self, o: &Vec3) -> (r: Vec3)
        ensures
            r == spec_v_add(*self, *o),
    {
        Vec3 { x: fx_add(self.x, o.x), y: fx_add(self.y, o.y), z: fx_add(self.z, o.z) }
    }

    /// Componentwise saturating subtraction.
    pub fn sub(&self, o: &Vec3) -> (r: Vec3)
        ensures
            r == spec_v_sub(*self, *o),
    {
        Vec3 { x: fx_sub(self.x, o.x), y: fx_sub(self.y, o.y), z: fx_sub(self.z, o.z) }
    }

    /// Componentwise fixed-point scaling.
    pub fn scale(&self, s: i64) -> (r: Vec3)
        ensures
            r == spec_v_scale(*self, s as int),
    {
        Vec3 { x: fx_mul(self.x, s), y: fx_mul(self.y, s), z: fx_mul(self.z, s) }
    }

    /// Componentwise saturating negation.
    pub fn neg(&self) -> (r: Vec3)
        ensures
            r == spec_v_neg(*self),
    {
        Vec3 {
            x: if self.x == i64::MIN { i64::MAX } else { -self.x },
            y: if self.y == i64::MIN { i64::MAX } else { -self.y },
            z: if self.z == i64::MIN { i64::MAX } else { -self.z },
        }
    }

    /// Fixed-point dot product, accumulated with saturation.
    pub fn dot(&self, o: &Vec3) -> (r: i64)
        ensures
            r == spec_v_dot(*self, *o),
    {
        fx_add(fx_add(fx_mul(self.x, o.x), fx_mul(self.y, o.y)), fx_mul(self.z, o.z))
    }

    /// Fixed-point cross product.
    pub fn cross(&self, o: &Vec3) -> (r: Vec3)
        ensures
            r == spec_v_cross(*self, *o),
    {
        Vec3 {
            x: fx_sub(fx_mul(self.y, o.z), fx_mul(self.z, o.y)),
            y: fx_sub(fx_mul(self.z, o.x), fx_mul(self.x, o.z)),
            z: fx_sub(fx_mul(self.x, o.y), fx_mul(self.y, o.x)),
        }
    }

    /// Fixed-point length. The squared length is accumulated exactly in wide
    /// integers, so only the final square root truncates.
    pub fn magnitude(&self) -> (r: i64)
        ensures
            r == spec_magnitude(*self),
            r >= 0,
            crate::fixed::is_isqrt(spec_norm2(*self), spec_isqrt(spec_norm2(*self) as nat) as int),
    {
        proof {
            assert(self.x * self.x >= 0 && self.y * self.y >= 0 && self.z * self.z >= 0)
                by (nonlinear_arith);
            lemma_isqrt_is_sqrt(spec_norm2(*self) as nat);
        }
        let ax = abs64(self.x);
        let ay = abs64(self.y);
        let az = abs64(self.z);
        assert((ax as int) * (ax as int) == (self.x as int) * (self.x as int)
            && (ay as int) * (ay as int) == (self.y as int) * (self.y as int)
            && (az as int) * (az as int) == (self.z as int) * (self.z as int))
            by (nonlinear_arith)
            requires
                ax == iabs(self.x as int),
                ay == iabs(self.y as int),
                az == iabs(self.z as int);
        assert((ax as int) * (ax as int) <= 0x40000000000000000000000000000000
            && (ay as int) * (ay as int) <= 0x40000000000000000000000000000000
            && (az as int) * (az as int) <= 0x40000000000000000000000000000000)
            by (nonlinear_arith)
            requires
                ax <= 0x8000000000000000u128,
                ay <= 0x8000000000000000u128,
                az <= 0x8000000000000000u128;
        let s: u128 = (ax as u128) * (ax as u128) + (ay as u128) * (ay as u128) + (az as u128)
            * (az as u128);
        let m: u64 = isqrt(s);
        if m > 0x7fffffffffffffff {
            i64::MAX
        } else {
            m as i64
        }
    }

    /// The vector scaled to unit length, or the zero vector if its length
    /// truncates to zero.
    pub fn normalize(&self) -> (r: Vec3)
        ensures
            r == spec_normalize(*self),
    {
        let m = self.magnitude();
        if m == 0 {
            Vec3 { x: 0, y: 0, z: 0 }
        } else {
            Vec3 { x: fx_div(self.x, m), y: fx_div(self.y, m), z: fx_div(self.z, m) }
        }
    }
}

/// Scaling any vector by zero yields the zero vector.
pub proof fn lemma_v_scale_zero(v: Vec3)
    ensures
        spec_v_scale(v, 0) == (Vec3 { x: 0i64, y: 0i64, z: 0i64 }),
{
}

/// The zero vector is the identity of vector addition.
pub proof fn lemma_v_add_zero(v: Vec3)
    ensures
        spec_v_add(v, Vec3 { x: 0i64, y: 0i64, z: 0i64 }) == v,
{
}

/// Normalization yields a vector of unit length up to the fixed-point
/// truncation: for any vector of length at least one unit, the squared raw
/// length of its normalization lies within 6/65536 of one (the analogue of
/// a 1e-4 relative tolerance on the length itself).
pub proof fn lemma_normalize_unit(v: Vec3)
    requires
        65536 <= spec_magnitude(v),
        spec_magnitude(v) < i64::MAX,
    ensures
        4294574078 <= spec_norm2(spec_normalize(v)),
        spec_norm2(spec_normalize(v)) <= 4295098368,
{
    let s = spec_norm2(v);
    assert(v.x * v.x >= 0 && v.y * v.y >= 0 && v.z * v.z >= 0) by (nonlinear_arith);
    let m = spec_magnitude(v);
    let m0 = spec_isqrt(s as nat) as int;
    lemma_isqrt_is_sqrt(s as nat);
    assert(m == clamp64(m0));
    assert(m == m0);
    assert(65536 <= m && m * m <= s && s < (m + 1) * (m + 1));

    let ax = iabs(v.x as int);
    let ay = iabs(v.y as int);
    let az = iabs(v.z as int);
    assert(ax * ax == v.x * v.x && ay * ay == v.y * v.y && az * az == v.z * v.z)
        by (nonlinear_arith)
        requires
            ax == iabs(v.x as int),
            ay == iabs(v.y as int),
            az == iabs(v.z as int);
    assert(ax <= m && ay <= m && az <= m) by (nonlinear_arith)
        requires
            ax >= 0 && ay >= 0 && az >= 0 && m >= 0,
            ax * ax <= s && ay * ay <= s && az * az <= s,
            s < (m + 1) * (m + 1);

    let qx = (ax * 65536) / m;
    let qy = (ay * 65536) / m;
    let qz = (az * 65536) / m;
    lemma_fundamental_div_mod(ax * 65536, m);
    lemma_fundamental_div_mod(ay * 65536, m);
    lemma_fundamental_div_mod(az * 65536, m);
    lemma_mod_bound(ax * 65536, m);
    lemma_mod_bound(ay * 65536, m);
    lemma_mod_bound(az * 65536, m);
    assert(m * qx <= ax * 65536 && ax * 65536 < m * (qx + 1) && m * qy <= ay * 65536 && ay * 65536
        < m * (qy + 1) && m * qz <= az * 65536 && az * 65536 < m * (qz + 1)) by (nonlinear_arith)
        requires
            ax * 65536 == m * qx + (ax * 65536) % m,
            ay * 65536 == m * qy + (ay * 65536) % m,
            az * 65536 == m * qz + (az * 65536) % m,
            0 <= (ax * 65536) % m < m,
            0 <= (ay * 65536) % m < m,
            0 <= (az * 65536) % m < m;
    assert(0 <= qx <= 65536 && 0 <= qy <= 65536 && 0 <= qz <= 65536) by (nonlinear_arith)
        requires
            m > 0,
            0 <= ax <= m && 0 <= ay <= m && 0 <= az <= m,
            m * qx <= ax * 65536 && ax * 65536 < m * (qx + 1),
            m * qy <= ay * 65536 && ay * 65536 < m * (qy + 1),
            m * qz <= az * 65536 && az * 65536 < m * (qz + 1);

    let n = spec_normalize(v);
    assert(n.x as int == if v.x >= 0 { qx } else { -qx });
    assert(n.y as int == if v.y >= 0 { qy } else { -qy });
    assert(n.z as int == if v.z >= 0 { qz } else { -qz });
    let t = qx * qx + qy * qy + qz * qz;
    assert(spec_norm2(n) == t) by (nonlinear_arith)
        requires
            n.x as int == if v.x >= 0 { qx } else { -qx },
            n.y as int == if v.y >= 0 { qy } else { -qy },
            n.z as int == if v.z >= 0 { qz } else { -qz },
            t == qx * qx + qy * qy + qz * qz,
            spec_norm2(n) == n.x * n.x + n.y * n.y + n.z * n.z;

    // Upper bound: m^2 t <= 65536^2 s <= 65536^2 (m^2 + 2m), so t < 65537^2.
    assert(m * m * (qx * qx) <= 65536 * 65536 * (ax * ax) && m * m * (qy * qy) <= 65536 * 65536 * (
    ay * ay) && m * m * (qz * qz) <= 65536 * 65536 * (az * az)) by (nonlinear_arith)
        requires
            0 <= m * qx <= ax * 65536,
            0 <= m * qy <= ay * 65536,
            0 <= m * qz <= az * 65536;
    assert(m * m * t <= 65536 * 65536 * s) by (nonlinear_arith)
        requires
            m * m * (qx * qx) <= 65536 * 65536 * (ax * ax),
            m * m * (qy * qy) <= 65536 * 65536 * (ay * ay),
            m * m * (qz * qz) <= 65536 * 65536 * (az * az),
            s == ax * ax + ay * ay + az * az,
            t == qx * qx + qy * qy + qz * qz;
    assert(s <= m * m + 2 * m) by (nonlinear_arith)
        requires
            s < (m + 1) * (m + 1);
    assert(m * m * t <= 65536 * 65536 * (m * m + 2 * m)) by (nonlinear_arith)
        requires
            m * m * t <= 65536 * 65536 * s,
            s <= m * m + 2 * m,
            m >= 0;
    assert(t <= 4295098368) by (nonlinear_arith)
        requires
            m >= 65536,
            t >= 0,
            m * m * t <= 65536 * 65536 * (m * m + 2 * m);

    // Lower bound: 65536^2 s < m^2 ((qx+1)^2 + (qy+1)^2 + (qz+1)^2) and
    // m^2 <= s force the shifted sum above 65536^2.
    let u = (qx + 1) * (qx + 1) + (qy + 1) * (qy + 1) + (qz + 1) * (qz + 1);
    assert(65536 * 65536 * (ax * ax) < m * m * ((qx + 1) * (qx + 1)) && 65536 * 65536 * (ay * ay)
        < m * m * ((qy + 1) * (qy + 1)) && 65536 * 65536 * (az * az) < m * m * ((qz + 1) * (qz + 1)
    )) by (nonlinear_arith)
        requires
            0 <= ax * 65536 && ax * 65536 < m * (qx + 1),
            0 <= ay * 65536 && ay * 65536 < m * (qy + 1),
            0 <= az * 65536 && az * 65536 < m * (qz + 1);
    assert(65536 * 65536 * s < m * m * u) by (nonlinear_arith)
        requires
            65536 * 65536 * (ax * ax) < m * m * ((qx + 1) * (qx + 1)),
            65536 * 65536 * (ay * ay) < m * m * ((qy + 1) * (qy + 1)),
            65536 * 65536 * (az * az) < m * m * ((qz + 1) * (qz + 1)),
            s == ax * ax + ay * ay + az * az,
            u == (qx + 1) * (qx + 1) + (qy + 1) * (qy + 1) + (qz + 1) * (qz + 1);
    assert(65536 * 65536 < u) by (nonlinear_arith)
        requires
            m > 0,
            m * m <= s,
            65536 * 65536 * s < m * m * u;
    assert(t >= u - 2 * (qx + qy + qz) - 3) by (nonlinear_arith)
        requires
            t == qx * qx + qy * qy + qz * qz,
            u == (qx + 1) * (qx + 1) + (qy + 1) * (qy + 1) + (qz + 1) * (qz + 1);
    assert(t >= 4294574078);
}

} // verus!
