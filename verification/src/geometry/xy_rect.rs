//! Rectangles in a plane of constant z.

use crate::intersection::hit_record::HitRecord;
use crate::scalar::Scalar;
use crate::vec3::Vec3;
use vstd::prelude::*;

verus! {

/// The rectangle from (`x0`, `y0`) to (`x1`, `y1`) in the plane
/// where z is `k`.
#[derive(Clone, Copy, Debug, PartialEq, Eq, Structural)]
pub struct XyRect {
    pub material_index: usize,
    pub x0: Scalar,
    pub x1: Scalar,
    pub y0: Scalar,
    pub y1: Scalar,
    pub k: Scalar,
}

impl XyRect {
    /// The rectangle of the given extents, plane and material.
    pub fn new(
        x0: Scalar,
        x1: Scalar,
        y0: Scalar,
        y1: Scalar,
        k: Scalar,
        material_index: usize,
    ) -> (r: XyRect)
        ensures
            r == (XyRect { material_index, x0, x1, y0, y1, k }),
    {
        XyRect { material_index, x0, x1, y0, y1, k }
    }

    /// The rectangle's outward normal: the unit vector along z.
    pub open spec fn normal_spec() -> Vec3 {
        Vec3 {
            x: Scalar { bits: 0 },
            y: Scalar { bits: 0 },
            z: Scalar { bits: 0x3f80_0000 },
        }
    }

    /// Whether a crossing of the rectangle's plane counts: its parameter
    /// `t` must lie in the window from `t_min` to `t_max`, ends included,
    /// and the point must lie within the rectangle's extents, edges included.
    pub open spec fn accepts(&self, t: Scalar, position: Vec3, t_min: Scalar, t_max: Scalar) -> bool {
        &&& !(t.lt_spec(t_min) || t_max.lt_spec(t))
        &&& !(position.x.lt_spec(self.x0) || self.x1.lt_spec(position.x))
        &&& !(position.y.lt_spec(self.y0) || self.y1.lt_spec(position.y))
    }

    /// The hit of a ray that crosses the rectangle's plane at parameter
    /// `t` in the point `position`, if the crossing counts (see
    /// [`accepts`](Self::accepts)). `facing` is the dot product of the ray's
    /// direction with the rectangle's normal, and `u`, `v` are the point's
    /// place within the extents.
    pub fn hit(
        &self,
        t: Scalar,
        position: Vec3,
        facing: Scalar,
        u: Scalar,
        v: Scalar,
        t_min: Scalar,
        t_max: Scalar,
    ) -> (res: Option<HitRecord>)
        ensures
            res == if self.accepts(t, position, t_min, t_max) {
                Some(
                    HitRecord {
                        root: t,
                        position,
                        normal: HitRecord::against(facing, XyRect::normal_spec()),
                        front_face: HitRecord::is_front(facing),
                        material_index: self.material_index,
                        u,
                        v,
                    },
                )
            } else {
                None
            },
    {
        if t.lt(t_min) || t.gt(t_max) {
            return None;
        }
        if position.x.lt(self.x0) || position.x.gt(self.x1) || position.y.lt(self.y0)
            || position.y.gt(self.y1) {
            return None;
        }
        let normal = Vec3::new(
            Scalar::from_bits(0),
            Scalar::from_bits(0),
            Scalar::from_bits(0x3f80_0000),
        );
        Some(HitRecord::new(t, position, normal, facing, self.material_index, u, v))
    }
}

} // verus!
