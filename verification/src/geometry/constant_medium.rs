//! Volumes of constant density, such as smoke.

use crate::geometry::aabb::Aabb;
use crate::geometry::Geometry;
use crate::intersection::hit_record::HitRecord;
use crate::scalar::Scalar;
use crate::vec3::Vec3;
use vstd::prelude::*;

verus! {

/// A medium of constant density that fills a convex boundary.
pub struct ConstantMedium {
    pub boundary: Box<Geometry>,
    /// The material that scatters light inside the medium.
    pub phase_function: usize,
    /// Minus one over the density.
    pub neg_inv_density: Scalar,
}

impl ConstantMedium {
    /// The medium inside `boundary`.
    pub fn new(boundary: Box<Geometry>, neg_inv_density: Scalar, phase_function: usize) -> (m:
        ConstantMedium)
        ensures
            m.boundary == boundary,
            m.neg_inv_density == neg_inv_density,
            m.phase_function == phase_function,
    {
        ConstantMedium { boundary, phase_function, neg_inv_density }
    }

    /// The box around the medium: that of its boundary (see
    /// [`Geometry::bounding_box`]).
    pub fn bounding_box<E>(&self, t0: Scalar, t1: Scalar, leaf_box: &E) -> (res: Option<
        Aabb,
    >) where E: Fn(&Geometry, Scalar, Scalar) -> Option<Aabb>
        requires
            Geometry::measurable(leaf_box),
        ensures
            self.boundary.box_outcome(t0, t1, leaf_box, res),
        decreases self, 0nat,
    {
        self.boundary.bounding_box(t0, t1, leaf_box)
    }

    /// The stretch of a ray that lies both inside the boundary and inside
    /// the window: from the later of `entry` and `t_min`, but not before the
    /// ray's origin, to the earlier of `exit` and `t_max`. There is none
    /// where the first does not come strictly before the second.
    pub open spec fn span_spec(entry: Scalar, exit: Scalar, t_min: Scalar, t_max: Scalar) -> Option<
        (Scalar, Scalar),
    > {
        let t1 = entry.max_spec(t_min);
        let t2 = exit.min_spec(t_max);
        if t2.le_spec(t1) {
            None
        } else {
            Some((t1.max_spec(Scalar::zero_spec()), t2))
        }
    }

    /// See [`span_spec`](Self::span_spec). `entry` and `exit` are the roots
    /// of the ray's two crossings of the boundary.
    pub fn span(entry: Scalar, exit: Scalar, t_min: Scalar, t_max: Scalar) -> (res: Option<
        (Scalar, Scalar),
    >)
        ensures
            res == ConstantMedium::span_spec(entry, exit, t_min, t_max),
    {
        let t1 = entry.max(t_min);
        let t2 = exit.min(t_max);
        if t1.ge(t2) {
            return None;
        }
        let t1 = t1.max(Scalar::zero());
        Some((t1, t2))
    }

    /// The hit of a ray inside the medium, if it scatters there: it does
    /// unless the sampled free path, `hit_distance`, is longer than the
    /// ray's way through the medium, `distance_inside`. The hit lies at
    /// parameter `t` in `position`; its normal is the zero vector, which
    /// nothing reads, and its material is the medium's phase function.
    pub fn scatter_point(
        &self,
        hit_distance: Scalar,
        distance_inside: Scalar,
        t: Scalar,
        position: Vec3,
    ) -> (res: Option<HitRecord>)
        ensures
            res == if distance_inside.lt_spec(hit_distance) {
                None
            } else {
                Some(
                    HitRecord {
                        root: t,
                        position,
                        normal: Vec3::zero_spec(),
                        front_face: true,
                        material_index: self.phase_function,
                        u: Scalar::zero_spec(),
                        v: Scalar::zero_spec(),
                    },
                )
            },
    {
        if hit_distance.gt(distance_inside) {
            return None;
        }
        Some(
            HitRecord {
                root: t,
                position,
                normal: Vec3::zero(),
                front_face: true,
                material_index: self.phase_function,
                u: Scalar::zero(),
                v: Scalar::zero(),
            },
        )
    }
}

} // verus!
