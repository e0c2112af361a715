//! A point light: position, color, and a scalar fixed-point intensity.
//!
//! The intensity is the one piece of runtime-mutable scene state; it may be
//! adjusted between frames, never during one.

use vstd::prelude::*;
use crate::color::Color;
use crate::vec3::Vec3;

verus! {

#[derive(Debug, Clone, Copy)]
pub struct Light {
    pub position: Vec3,
    pub color: Color,
    pub intensity: i64,
}

impl Light {
    pub fn new(position: Vec3, color: Color, intensity: i64) -> (l: Light)
        ensures
            l == (Light { position, color, intensity }),
    {
        Light { position, color, intensity }
    }

    /// Replaces the intensity, leaving position and color unchanged.
    pub fn set_intensity(&mut self, intensity: i64)
        ensures
            final(self).intensity == intensity,
            final(self).position == old(self).position,
            final(self).color == old(self).color,
    {
        self.intensity = intensity;
    }
}

} // verus!
