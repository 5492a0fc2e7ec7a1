//! Mirrors, polished or brushed.

use crate::intersection::hit_record::HitRecord;
use crate::intersection::ray::Ray;
use crate::material::ScatterRecord;
use crate::scalar::Scalar;
use crate::vec3::Vec3;
use vstd::prelude::*;

verus! {

/// A reflecting surface; `fuzz` says how far a reflection may stray.
#[derive(Clone, Copy, Debug, PartialEq, Eq, Structural)]
pub struct Metal {
    pub texture_index: usize,
    pub fuzz: Scalar,
    pub emitted: Option<usize>,
}

impl Metal {
    /// The metal of the given texture and fuzz.
    pub fn new(texture_index: usize, fuzz: Scalar, emitted: Option<usize>) -> (m: Metal)
        ensures
            m == (Metal { texture_index, fuzz, emitted }),
    {
        Metal { texture_index, fuzz, emitted }
    }

    /// The ray sent on from a hit, if any. `fuzzed_direction` is the mirror
    /// image of the incoming direction, moved by the fuzz, and `facing` is
    /// its dot product with the surface normal. The ray is sent on exactly
    /// when `facing` is positive; otherwise the surface swallows it.
    pub fn scatter(
        &self,
        r_in: &Ray,
        rec: &HitRecord,
        fuzzed_direction: Vec3,
        facing: Scalar,
    ) -> (s: Option<ScatterRecord>)
        ensures
            s == if Scalar::zero_spec().lt_spec(facing) {
                Some(
                    ScatterRecord {
                        texture_index: self.texture_index,
                        scattered: Ray {
                            origin: rec.position,
                            direction: fuzzed_direction,
                            time: r_in.time,
                        },
                    },
                )
            } else {
                None
            },
    {
        if facing.gt(Scalar::zero()) {
            Some(
                ScatterRecord::new(
                    Ray::new(rec.position, fuzzed_direction, r_in.time),
                    self.texture_index,
                ),
            )
        } else {
            None
        }
    }

    /// The texture the material shines with, if any.
    pub fn emitted(&self) -> (e: Option<usize>)
        ensures
            e == self.emitted,
    {
        self.emitted
    }
}

} // verus!
