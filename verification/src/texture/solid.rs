//! Textures of one colour.

use crate::scalar::Scalar;
use crate::vec3::Vec3;
use vstd::prelude::*;

verus! {

/// One colour everywhere.
#[derive(Clone, Copy, Debug, PartialEq, Eq, Structural)]
pub struct Solid {
    pub color_value: Vec3,
}

impl Solid {
    /// The texture of the given colour.
    pub fn new(color_value: Vec3) -> (s: Solid)
        ensures
            s.color_value == color_value,
    {
        Solid { color_value }
    }

    /// The texture of the colour with the given red, green and blue.
    pub fn new_from_rgb(r: Scalar, g: Scalar, b: Scalar) -> (s: Solid)
        ensures
            s.color_value == (Vec3 { x: r, y: g, z: b }),
    {
        Solid { color_value: Vec3::new(r, g, b) }
    }

    /// The colour at a point of a surface: the same at every point.
    pub fn value(&self, u: Scalar, v: Scalar, p: Vec3) -> (color: Vec3)
        ensures
            color == self.color_value,
    {
        self.color_value
    }
}

} // verus!
