//! Glass and other clear materials.

use crate::intersection::hit_record::HitRecord;
use crate::intersection::ray::Ray;
use crate::material::ScatterRecord;
use crate::scalar::Scalar;
use crate::vec3::Vec3;
use vstd::prelude::*;

verus! {

/// The bit pattern of 1.0.
pub const ONE_BITS: u32 = 0x3f80_0000;

/// A clear material with a refractive index.
#[derive(Clone, Copy, Debug, PartialEq, Eq, Structural)]
pub struct Dieletric {
    pub ref_idx: Scalar,
    pub texture_index: usize,
    pub emitted: Option<usize>,
}

impl Dieletric {
    /// The material of the given refractive index.
    pub fn new(ref_idx: Scalar, texture_index: usize, emitted: Option<usize>) -> (m: Dieletric)
        ensures
            m == (Dieletric { ref_idx, texture_index, emitted }),
    {
        Dieletric { ref_idx, texture_index, emitted }
    }

    /// The ratio of refractive indices that a ray meets: the reciprocal of
    /// the material's index where the ray enters from outside, the index
    /// itself where it leaves. `reciprocal` is one over the index.
    pub fn refraction_ratio(&self, front_face: bool, reciprocal: Scalar) -> (ratio: Scalar)
        ensures
            ratio == if front_face {
                reciprocal
            } else {
                self.ref_idx
            },
    {
        if front_face {
            reciprocal
        } else {
            self.ref_idx
        }
    }

    /// Whether a ray is reflected rather than refracted: it is where it
    /// cannot be refracted at all, which is where `bend`, the refraction
    /// ratio times the sine of the angle of incidence, exceeds one; and
    /// else where the surface's reflectance exceeds a uniform random `draw`.
    pub open spec fn reflects(bend: Scalar, reflectance: Scalar, draw: Scalar) -> bool {
        (Scalar { bits: ONE_BITS }).lt_spec(bend) || draw.lt_spec(reflectance)
    }

    /// The ray sent on from a hit: a single ray, either the reflected or
    /// the refracted one (see [`reflects`](Self::reflects)). A clear
    /// material always sends a ray on.
    pub fn scatter(
        &self,
        r_in: &Ray,
        rec: &HitRecord,
        bend: Scalar,
        reflectance: Scalar,
        draw: Scalar,
        reflected: Vec3,
        refracted: Vec3,
    ) -> (s: Option<ScatterRecord>)
        ensures
            s == Some(
                ScatterRecord {
                    texture_index: self.texture_index,
                    scattered: Ray {
                        origin: rec.position,
                        direction: if Dieletric::reflects(bend, reflectance, draw) {
                            reflected
                        } else {
                            refracted
                        },
                        time: r_in.time,
                    },
                },
            ),
    {
        let cannot_refract = bend.gt(Scalar::from_bits(ONE_BITS));
        let direction = if cannot_refract || reflectance.gt(draw) {
            reflected
        } else {
            refracted
        };
        Some(ScatterRecord::new(Ray::new(rec.position, direction, r_in.time), self.texture_index))
    }

    /// The texture the material shines with, if any.
    pub fn emitted(&self) -> (e: Option<usize>)
        ensures
            e == self.emitted,
    {
        self.emitted
    }
}

} // verus!
