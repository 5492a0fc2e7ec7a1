//! Matt surfaces.

use crate::intersection::hit_record::HitRecord;
use crate::intersection::ray::Ray;
use crate::material::ScatterRecord;
use crate::scalar::Scalar;
use crate::vec3::Vec3;
use vstd::prelude::*;

verus! {

/// The bit pattern of 0.0001, below which a direction counts as no
/// direction.
pub const DEGENERATE_BITS: u32 = 0x38d1_b717;

/// A matt surface.
#[derive(Clone, Copy, Debug, PartialEq, Eq, Structural)]
pub struct Lambertian {
    pub texture_index: usize,
    pub emitted: Option<usize>,
}

impl Lambertian {
    /// The material tinted by one texture and shining with another, if any.
    pub fn new(texture_index: usize, emitted: Option<usize>) -> (m: Lambertian)
        ensures
            m == (Lambertian { texture_index, emitted }),
    {
        Lambertian { texture_index, emitted }
    }

    /// The direction in which a ray leaves the surface: `candidate`, unless
    /// all its components lie within 0.0001 of zero, in which case the
    /// normal takes its place.
    pub open spec fn direction_spec(normal: Vec3, candidate: Vec3) -> Vec3 {
        if candidate.near_zero_spec(Scalar { bits: DEGENERATE_BITS }) {
            normal
        } else {
            candidate
        }
    }

    /// The ray sent on from a hit. `candidate` is the sum of the surface
    /// normal and a random unit vector. A matt surface always sends a ray
    /// on: it leaves the point of the hit, at the time of the incoming ray,
    /// along `candidate`, or along the normal where `candidate` is
    /// degenerate (see [`direction_spec`](Self::direction_spec)).
    pub fn scatter(&self, r_in: &Ray, rec: &HitRecord, candidate: Vec3) -> (s: Option<
        ScatterRecord,
    >)
        ensures
            s == Some(
                ScatterRecord {
                    texture_index: self.texture_index,
                    scattered: Ray {
                        origin: rec.position,
                        direction: Lambertian::direction_spec(rec.normal, candidate),
                        time: r_in.time,
                    },
                },
            ),
    {
        let scatter_direction = if candidate.near_zero(Scalar::from_bits(DEGENERATE_BITS)) {
            rec.normal
        } else {
            candidate
        };
        Some(
            ScatterRecord::new(
                Ray::new(rec.position, scatter_direction, r_in.time),
                self.texture_index,
            ),
        )
    }

    /// The texture the material shines with, if any.
    pub fn emitted(&self) -> (e: Option<usize>)
        ensures
            e == self.emitted,
    {
        self.emitted
    }
}

} // verus!
