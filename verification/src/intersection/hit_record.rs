//! The record of one intersection.

use crate::scalar::Scalar;
use crate::vec3::Vec3;
use vstd::prelude::*;

verus! {

/// Where a ray met a surface, and what the surface is like there.
#[derive(Clone, Copy, Debug, PartialEq, Eq, Structural)]
pub struct HitRecord {
    /// The parameter along the ray at which it met the surface.
    pub root: Scalar,
    pub position: Vec3,
    /// The surface normal, turned against the incoming ray.
    pub normal: Vec3,
    /// Whether the ray came from outside the surface.
    pub front_face: bool,
    pub material_index: usize,
    pub u: Scalar,
    pub v: Scalar,
}

impl HitRecord {
    /// Whether a ray meets a surface from outside, given `facing`, the dot
    /// product of the ray's direction with the outward normal.
    pub open spec fn is_front(facing: Scalar) -> bool {
        facing.lt_spec(Scalar::zero_spec())
    }

    /// The outward normal turned against the ray.
    pub open spec fn against(facing: Scalar, outward_normal: Vec3) -> Vec3 {
        if HitRecord::is_front(facing) {
            outward_normal
        } else {
            outward_normal.neg_spec()
        }
    }

    /// The record of a hit at `root` and `position` on a surface whose
    /// outward normal there is `outward_normal`. `facing` is the dot product
    /// of the ray's direction with that normal: where it is negative the ray
    /// came from outside and the normal is kept, otherwise it is flipped.
    pub fn new(
        root: Scalar,
        position: Vec3,
        outward_normal: Vec3,
        facing: Scalar,
        material_index: usize,
        u: Scalar,
        v: Scalar,
    ) -> (rec: HitRecord)
        ensures
            rec == (HitRecord {
                root,
                position,
                normal: HitRecord::against(facing, outward_normal),
                front_face: HitRecord::is_front(facing),
                material_index,
                u,
                v,
            }),
    {
        let front_face = facing.lt(Scalar::zero());
        let normal = if front_face {
            outward_normal
        } else {
            outward_normal.neg()
        };
        HitRecord { root, position, normal, front_face, material_index, u, v }
    }

    /// Turns the record's normal against a ray. `facing` is the dot product of
    /// the ray's direction with `outward_normal`. Nothing else changes.
    pub fn set_face_normal(&mut self, facing: Scalar, outward_normal: Vec3)
        ensures
            *final(self) == (HitRecord {
                normal: HitRecord::against(facing, outward_normal),
                front_face: HitRecord::is_front(facing),
                ..*old(self)
            }),
    {
        self.front_face = facing.lt(Scalar::zero());
        self.normal = if self.front_face {
            outward_normal
        } else {
            outward_normal.neg()
        };
    }

    /// Of two optional hits, the one to report: the only one if there is
    /// only one, and of two the left one exactly when its root is
    /// numerically less than the right one's.
    pub open spec fn nearer_spec(left: Option<HitRecord>, right: Option<HitRecord>) -> Option<
        HitRecord,
    > {
        match (left, right) {
            (Some(l), Some(r)) => if l.root.lt_spec(r.root) {
                Some(l)
            } else {
                Some(r)
            },
            (Some(l), None) => Some(l),
            (None, Some(r)) => Some(r),
            (None, None) => None,
        }
    }

    /// See [`nearer_spec`](Self::nearer_spec).
    pub fn nearer(left: Option<HitRecord>, right: Option<HitRecord>) -> (res: Option<HitRecord>)
        ensures
            res == HitRecord::nearer_spec(left, right),
    {
        match (left, right) {
            (Some(l), Some(r)) => {
                if l.root.lt(r.root) {
                    Some(l)
                } else {
                    Some(r)
                }
            },
            (Some(l), None) => Some(l),
            (None, Some(r)) => Some(r),
            (None, None) => None,
        }
    }
}

} // verus!
