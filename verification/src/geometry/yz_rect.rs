//! Rectangles in a plane of constant x.

use crate::intersection::hit_record::HitRecord;
use crate::scalar::Scalar;
use crate::vec3::Vec3;
use vstd::prelude::*;

verus! {

/// The rectangle from (`y0`, `z0`) to (`y1`, `z1`) in the plane
/// where x is `k`.
#[derive(Clone, Copy, Debug, PartialEq, Eq, Structural)]
pub struct YzRect {
    pub material_index: usize,
    pub y0: Scalar,
    pub y1: Scalar,
    pub z0: Scalar,
    pub z1: Scalar,
    pub k: Scalar,
}

impl YzRect {
    /// The rectangle of the given extents, plane and material.
    pub fn new(
        y0: Scalar,
        y1: Scalar,
        z0: Scalar,
        z1: Scalar,
        k: Scalar,
        material_index: usize,
    ) -> (r: YzRect)
        ensures
            r == (YzRect { material_index, y0, y1, z0, z1, k }),
    {
        YzRect { material_index, y0, y1, z0, z1, k }
    }

    /// The rectangle's outward normal: the unit vector along x.
    pub open spec fn normal_spec() -> Vec3 {
        Vec3 {
            x: Scalar { bits: 0x3f80_0000 },
            y: Scalar { bits: 0 },
            z: Scalar { bits: 0 },
        }
    }

    /// Whether a crossing of the rectangle's plane counts: its parameter
    /// `t` must lie in the window from `t_min` to `t_max`, ends included,
    /// and the point must lie within the rectangle's extents, edges included.
    pub open spec fn accepts(&self, t: Scalar, position: Vec3, t_min: Scalar, t_max: Scalar) -> bool {
        &&& !(t.lt_spec(t_min) || t_max.lt_spec(t))
        &&& !(position.y.lt_spec(self.y0) || self.y1.lt_spec(position.y))
        &&& !(position.z.lt_spec(self.z0) || self.z1.lt_spec(position.z))
    }

    /// The hit of a ray that crosses the rectangle's plane at parameter
    /// `t` in the point `position`, if the crossing counts (see
    /// [`accepts`](Self::accepts)). `facing` is the dot product of the ray's
    /// direction with the rectangle's normal, and `u`, `v` are the point's
    /// place within the extents.
    pub fn hit(
        &self,
        t: Scalar,
        position: Vec3,
        facing: Scalar,
        u: Scalar,
        v: Scalar,
        t_min: Scalar,
        t_max: Scalar,
    ) -> (res: Option<HitRecord>)
        ensures
            res == if self.accepts(t, position, t_min, t_max) {
                Some(
                    HitRecord {
                        root: t,
                        position,
                        normal: HitRecord::against(facing, YzRect::normal_spec()),
                        front_face: HitRecord::is_front(facing),
                        material_index: self.material_index,
                        u,
                        v,
                    },
                )
            } else {
                None
            },
    {
        if t.lt(t_min) || t.gt(t_max) {
            return None;
        }
        if position.y.lt(self.y0) || position.y.gt(self.y1) || position.z.lt(self.z0)
            || position.z.gt(self.z1) {
            return None;
        }
        let normal = Vec3::new(
            Scalar::from_bits(0x3f80_0000),
            Scalar::from_bits(0),
            Scalar::from_bits(0),
        );
        Some(HitRecord::new(t, position, normal, facing, self.material_index, u, v))
    }
}

} // verus!
