//! Spheres that move while the shutter is open.

use crate::scalar::Scalar;
use crate::vec3::Vec3;
use vstd::prelude::*;

verus! {

/// A sphere whose centre travels in a straight line from `center0` to
/// `center1` over the shutter interval.
#[derive(Clone, Copy, Debug, PartialEq, Eq, Structural)]
pub struct MovingSphere {
    pub center0: Vec3,
    pub center1: Vec3,
    pub radius: Scalar,
    pub material_index: usize,
}

impl MovingSphere {
    /// The sphere that travels between the two centres.
    pub fn new(center0: Vec3, center1: Vec3, radius: Scalar, material_index: usize) -> (s:
        MovingSphere)
        ensures
            s == (MovingSphere { center0, center1, radius, material_index }),
    {
        MovingSphere { center0, center1, radius, material_index }
    }
}

} // verus!
