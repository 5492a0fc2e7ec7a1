//! The material inside a volume: it sends light on in any direction.

use crate::intersection::hit_record::HitRecord;
use crate::intersection::ray::Ray;
use crate::material::ScatterRecord;
use crate::vec3::Vec3;
use vstd::prelude::*;

verus! {

/// Scatters evenly into all directions.
#[derive(Clone, Copy, Debug, PartialEq, Eq, Structural)]
pub struct Isotropic {
    pub texture_index: usize,
    pub emitted: Option<usize>,
}

impl Isotropic {
    /// The material tinted by one texture and shining with another, if any.
    pub fn new(texture_index: usize, emitted: Option<usize>) -> (m: Isotropic)
        ensures
            m == (Isotropic { texture_index, emitted }),
    {
        Isotropic { texture_index, emitted }
    }

    /// The ray sent on from a hit: it leaves the point of the hit in the
    /// given direction, a random one, at the time of the incoming ray.
    pub fn scatter(&self, r_in: &Ray, rec: &HitRecord, direction: Vec3) -> (s: Option<
        ScatterRecord,
    >)
        ensures
            s == Some(
                ScatterRecord {
                    texture_index: self.texture_index,
                    scattered: Ray { origin: rec.position, direction, time: r_in.time },
                },
            ),
    {
        Some(ScatterRecord::new(Ray::new(rec.position, direction, r_in.time), self.texture_index))
    }

    /// The texture the material shines with, if any.
    pub fn emitted(&self) -> (e: Option<usize>)
        ensures
            e == self.emitted,
    {
        self.emitted
    }
}

} // verus!
