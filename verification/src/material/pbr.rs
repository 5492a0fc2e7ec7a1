//! A reflector whose roughness is read from a texture.

use crate::intersection::hit_record::HitRecord;
use crate::intersection::ray::Ray;
use crate::material::ScatterRecord;
use crate::vec3::Vec3;
use vstd::prelude::*;

verus! {

/// A reflecting surface, tinted by one texture and roughened by another.
#[derive(Clone, Copy, Debug, PartialEq, Eq, Structural)]
pub struct Pbr {
    pub texture_index: usize,
    pub roughness_index: usize,
    pub emitted: Option<usize>,
}

impl Pbr {
    /// The material of the given textures.
    pub fn new(texture_index: usize, roughness_index: usize, emitted: Option<usize>) -> (m: Pbr)
        ensures
            m == (Pbr { texture_index, roughness_index, emitted }),
    {
        Pbr { texture_index, roughness_index, emitted }
    }

    /// The ray sent on from a hit: it leaves the point of the hit along
    /// `scatter_direction`, the incoming direction mirrored about the
    /// roughened normal, at the time of the incoming ray. The surface
    /// always sends a ray on.
    pub fn scatter(&self, r_in: &Ray, rec: &HitRecord, scatter_direction: Vec3) -> (s: Option<
        ScatterRecord,
    >)
        ensures
            s == Some(
                ScatterRecord {
                    texture_index: self.texture_index,
                    scattered: Ray {
                        origin: rec.position,
                        direction: scatter_direction,
                        time: r_in.time,
                    },
                },
            ),
    {
        Some(
            ScatterRecord::new(
                Ray::new(rec.position, scatter_direction, r_in.time),
                self.texture_index,
            ),
        )
    }

    /// The texture the material shines with, if any.
    pub fn emitted(&self) -> (e: Option<usize>)
        ensures
            e == self.emitted,
    {
        self.emitted
    }
}

} // verus!
