//! Rays.

use crate::scalar::Scalar;
use crate::vec3::Vec3;
use vstd::prelude::*;

verus! {

/// A half-line through the scene, stamped with the moment it was cast.
#[derive(Clone, Copy, Debug, PartialEq, Eq, Structural)]
pub struct Ray {
    pub origin: Vec3,
    /// Not necessarily of unit length.
    pub direction: Vec3,
    /// A moment within the camera's shutter interval.
    pub time: Scalar,
}

impl Ray {
    /// The ray from `origin` along `direction` at `time`.
    pub fn new(origin: Vec3, direction: Vec3, time: Scalar) -> (r: Ray)
        ensures
            r == (Ray { origin, direction, time }),
    {
        Ray { origin, direction, time }
    }
}

} // verus!
