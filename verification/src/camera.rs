//! The look-at camera.
//!
//! The camera orbits a fixed target at constant radius: it stores the
//! target, an up hint, the orbit radius, yaw/pitch accumulators and a field
//! of view, and derives the eye position from the spherical angles. This is
//! the one orbit semantics this library implements, chosen because it is
//! the only one consistent with a look-at basis: `orbit` accumulates the
//! angle deltas (clamping pitch away from the poles) and recomputes the
//! eye; `zoom` moves the eye along the view direction by shrinking the
//! radius, never past the target.

use vstd::prelude::*;
use crate::fixed::{
    fx_add, fx_sub, fx_mul, fx_div, fx_neg, fx_sin, fx_cos, angle_wrap, spec_fx_add, spec_fx_sub,
    spec_fx_mul, spec_fx_div, spec_fx_neg, spec_fx_sin, spec_fx_cos, spec_angle_wrap,
};
use crate::vec3::{
    Vec3, spec_v_add, spec_v_sub, spec_v_scale, spec_v_cross, spec_normalize, spec_magnitude,
    spec_norm2, lemma_v_scale_zero, lemma_v_add_zero, lemma_normalize_unit,
};

verus! {

/// How close to the poles the pitch may come: pi/2 - 0.1 rad, fixed point.
pub const PITCH_LIMIT: i64 = 96390;

#[derive(Debug, Clone, Copy)]
pub struct Camera {
    /// The target the camera looks at and orbits.
    pub center: Vec3,
    /// The up hint the basis is built against.
    pub up: Vec3,
    /// Distance from the eye to the target.
    pub radius: i64,
    /// Accumulated azimuth angle, radians.
    pub yaw: i64,
    /// Accumulated elevation angle, radians, clamped away from the poles.
    pub pitch: i64,
    /// Vertical field of view, radians.
    pub fov: i64,
    /// The eye position, always derived from the fields above.
    pub eye: Vec3,
}

/// The eye position on the orbit sphere: the target plus the spherical
/// offset of the given radius, yaw and pitch.
pub open spec fn spec_eye_from(center: Vec3, radius: int, yaw: int, pitch: int) -> Vec3 {
    spec_v_add(
        center,
        Vec3 {
            x: spec_fx_mul(radius, spec_fx_mul(spec_fx_cos(yaw), spec_fx_cos(pitch))) as i64,
            y: spec_fx_neg(spec_fx_mul(radius, spec_fx_sin(pitch))) as i64,
            z: spec_fx_mul(radius, spec_fx_mul(spec_fx_sin(yaw), spec_fx_cos(pitch))) as i64,
        },
    )
}

/// Saturation of a pitch angle into the allowed band around the horizon.
pub open spec fn spec_clamp_pitch(p: int) -> int {
    if p > 96390 {
        96390
    } else if p < -96390 {
        -96390
    } else {
        p
    }
}

/// The normalized view direction, from the eye toward the target.
pub open spec fn spec_forward(c: Camera) -> Vec3 {
    spec_normalize(spec_v_sub(c.center, c.eye))
}

/// The normalized right direction of the view basis.
pub open spec fn spec_right(c: Camera) -> Vec3 {
    spec_normalize(spec_v_cross(spec_forward(c), c.up))
}

/// The normalized true up direction of the view basis.
pub open spec fn spec_up_vec(c: Camera) -> Vec3 {
    spec_normalize(spec_v_cross(spec_right(c), spec_forward(c)))
}

/// A camera-space vector carried into the world basis: x along right,
/// y along up, -z along forward, normalized.
pub open spec fn spec_basis_change(c: Camera, v: Vec3) -> Vec3 {
    spec_normalize(
        spec_v_sub(
            spec_v_add(
                spec_v_scale(spec_right(c), v.x as int),
                spec_v_scale(spec_up_vec(c), v.y as int),
            ),
            spec_v_scale(spec_forward(c), v.z as int),
        ),
    )
}

/// The half-angle tangent the ray generator scales screen coordinates by.
pub open spec fn spec_persp_scale(c: Camera) -> int {
    let h = spec_fx_mul(c.fov as int, 32768);
    spec_fx_div(spec_fx_sin(h), spec_fx_cos(h))
}

/// The un-normalized ray direction for normalized device coordinates
/// (u, v), each in [-1, 1]: forward plus the screen offsets along right and
/// up, scaled by tan(fov/2).
pub open spec fn spec_gen_dir(c: Camera, u: int, v: int) -> Vec3 {
    let t = spec_persp_scale(c);
    spec_v_add(
        spec_v_add(spec_forward(c), spec_v_scale(spec_right(c), spec_fx_mul(u, t))),
        spec_v_scale(spec_up_vec(c), spec_fx_mul(v, t)),
    )
}

/// The world-space ray direction for normalized device coordinates (u, v).
pub open spec fn spec_generate_ray(c: Camera, u: int, v: int) -> Vec3 {
    spec_normalize(spec_gen_dir(c, u, v))
}

/// The eye always sits on the orbit sphere and the pitch stays off the
/// poles.
pub open spec fn camera_wf(c: Camera) -> bool {
    &&& -96390 <= c.pitch <= 96390
    &&& c.radius >= 1
    &&& c.eye == spec_eye_from(c.center, c.radius as int, c.yaw as int, c.pitch as int)
}

fn eye_from(center: &Vec3, radius: i64, yaw: i64, pitch: i64) -> (r: Vec3)
    ensures
        r == spec_eye_from(*center, radius as int, yaw as int, pitch as int),
{
    let cy = fx_cos(yaw);
    let sy = fx_sin(yaw);
    let cp = fx_cos(pitch);
    let sp = fx_sin(pitch);
    center.add(
        &Vec3 {
            x: fx_mul(radius, fx_mul(cy, cp)),
            y: fx_neg(fx_mul(radius, sp)),
            z: fx_mul(radius, fx_mul(sy, cp)),
        },
    )
}

impl Camera {
    /// A camera orbiting `center` at distance `radius`, with the given
    /// angles (pitch saturated off the poles) and vertical field of view.
    pub fn new(center: Vec3, up: Vec3, radius: i64, yaw: i64, pitch: i64, fov: i64) -> (c: Camera)
        requires
            radius >= 1,
        ensures
            c.center == center,
            c.up == up,
            c.radius == radius,
            c.yaw == yaw,
            c.pitch == spec_clamp_pitch(pitch as int),
            c.fov == fov,
            camera_wf(c),
    {
        let p: i64 = if pitch > PITCH_LIMIT {
            PITCH_LIMIT
        } else if pitch < -PITCH_LIMIT {
            -PITCH_LIMIT
        } else {
            pitch
        };
        let eye = eye_from(&center, radius, yaw, p);
        Camera { center, up, radius, yaw, pitch: p, fov, eye }
    }

    /// Carries a camera-space vector into the world basis.
    pub fn basis_change(&self, vector: &Vec3) -> (r: Vec3)
        ensures
            r == spec_basis_change(*self, *vector),
    {
        let forward = self.center.sub(&self.eye).normalize();
        let right = forward.cross(&self.up).normalize();
        let up = right.cross(&forward).normalize();
        right.scale(vector.x).add(&up.scale(vector.y)).sub(&forward.scale(vector.z)).normalize()
    }

    /// The world-space ray direction for normalized device coordinates
    /// (u, v), each in [-1, 1], already aspect-corrected by the caller: the
    /// normalization of forward + right*u*tan(fov/2) + up*v*tan(fov/2). At
    /// the screen center (0, 0) this is exactly the normalized forward
    /// vector.
    pub fn generate_ray(&self, u: i64, v: i64) -> (r: Vec3)
        ensures
            r == spec_generate_ray(*self, u as int, v as int),
            u == 0 && v == 0 ==> r == spec_normalize(spec_forward(*self)),
    {
        let forward = self.center.sub(&self.eye).normalize();
        let right = forward.cross(&self.up).normalize();
        let up = right.cross(&forward).normalize();
        let h = fx_mul(self.fov, 32768);
        let t = fx_div(fx_sin(h), fx_cos(h));
        let dir = forward.add(&right.scale(fx_mul(u, t))).add(&up.scale(fx_mul(v, t)));
        proof {
            if u == 0 && v == 0 {
                assert(0 * spec_persp_scale(*self) == 0) by (nonlinear_arith);
                assert(spec_fx_mul(0, spec_persp_scale(*self)) == 0);
                lemma_v_scale_zero(spec_right(*self));
                lemma_v_scale_zero(spec_up_vec(*self));
                lemma_v_add_zero(spec_forward(*self));
                lemma_v_add_zero(
                    spec_v_add(spec_forward(*self), Vec3 { x: 0i64, y: 0i64, z: 0i64 }),
                );
            }
        }
        dir.normalize()
    }

    /// Accumulates yaw and pitch deltas, wrapping the yaw, clamping the
    /// pitch off the poles, and recomputing the eye on the orbit sphere;
    /// target, up hint, radius and field of view are untouched.
    pub fn orbit(&mut self, delta_yaw: i64, delta_pitch: i64)
        ensures
            final(self).center == old(self).center,
            final(self).up == old(self).up,
            final(self).radius == old(self).radius,
            final(self).fov == old(self).fov,
            final(self).yaw == spec_angle_wrap(spec_fx_add(old(self).yaw as int, delta_yaw as int)),
            final(self).pitch == spec_clamp_pitch(
                spec_fx_add(old(self).pitch as int, delta_pitch as int),
            ),
            final(self).eye == spec_eye_from(
                final(self).center,
                final(self).radius as int,
                final(self).yaw as int,
                final(self).pitch as int,
            ),
            old(self).radius >= 1 ==> camera_wf(*final(self)),
    {
        self.yaw = angle_wrap(fx_add(self.yaw, delta_yaw));
        let p = fx_add(self.pitch, delta_pitch);
        self.pitch = if p > PITCH_LIMIT {
            PITCH_LIMIT
        } else if p < -PITCH_LIMIT {
            -PITCH_LIMIT
        } else {
            p
        };
        self.eye = eye_from(&self.center, self.radius, self.yaw, self.pitch);
    }

    /// Moves the eye along the view direction by shrinking the orbit radius
    /// by `zoom_factor`, never past one fixed-point step short of the
    /// target; a negative factor zooms out.
    pub fn zoom(&mut self, zoom_factor: i64)
        ensures
            final(self).center == old(self).center,
            final(self).up == old(self).up,
            final(self).yaw == old(self).yaw,
            final(self).pitch == old(self).pitch,
            final(self).fov == old(self).fov,
            final(self).radius == ({
                let nr = spec_fx_sub(old(self).radius as int, zoom_factor as int);
                if nr < 1 { 1int } else { nr }
            }),
            final(self).eye == spec_eye_from(
                final(self).center,
                final(self).radius as int,
                final(self).yaw as int,
                final(self).pitch as int,
            ),
            -96390 <= old(self).pitch <= 96390 ==> camera_wf(*final(self)),
    {
        let nr = fx_sub(self.radius, zoom_factor);
        self.radius = if nr < 1 { 1 } else { nr };
        self.eye = eye_from(&self.center, self.radius, self.yaw, self.pitch);
    }
}

/// Ray generation keeps unit length: whenever the un-normalized direction
/// has length at least one unit (as it does whenever the screen offsets do
/// not cancel the forward vector), the generated ray's squared raw length
/// lies within 6/65536 of one.
pub proof fn lemma_generate_ray_unit(c: Camera, u: int, v: int)
    requires
        65536 <= spec_magnitude(spec_gen_dir(c, u, v)),
        spec_magnitude(spec_gen_dir(c, u, v)) < i64::MAX,
    ensures
        4294574078 <= spec_norm2(spec_generate_ray(c, u, v)),
        spec_norm2(spec_generate_ray(c, u, v)) <= 4295098368,
{
    lemma_normalize_unit(spec_gen_dir(c, u, v));
}

} // verus!
