//! Boxes made of six rectangles.

use crate::geometry::aabb::Aabb;
use crate::geometry::hittable::HittableList;
use crate::geometry::xy_rect::XyRect;
use crate::geometry::xz_rect::XzRect;
use crate::geometry::yz_rect::YzRect;
use crate::geometry::Geometry;
use crate::intersection::hit_record::HitRecord;
use crate::intersection::ray::Ray;
use crate::scalar::Scalar;
use crate::vec3::Vec3;
use vstd::prelude::*;

verus! {

/// An axis-aligned box between two corners, made of its six faces.
pub struct CornellBox {
    pub min: Vec3,
    pub max: Vec3,
    pub sides: HittableList,
}

impl CornellBox {
    /// The six faces of the box between `min` and `max`, all of one material:
    /// back and front (constant z), top and bottom (constant y), right and
    /// left (constant x), in this order, each the far face first.
    pub open spec fn sides_spec(min: Vec3, max: Vec3, material_index: usize) -> Seq<Geometry> {
        seq![
            Geometry::XyRect(
                XyRect { material_index, x0: min.x, x1: max.x, y0: min.y, y1: max.y, k: max.z },
            ),
            Geometry::XyRect(
                XyRect { material_index, x0: min.x, x1: max.x, y0: min.y, y1: max.y, k: min.z },
            ),
            Geometry::XzRect(
                XzRect { material_index, x0: min.x, x1: max.x, z0: min.z, z1: max.z, k: max.y },
            ),
            Geometry::XzRect(
                XzRect { material_index, x0: min.x, x1: max.x, z0: min.z, z1: max.z, k: min.y },
            ),
            Geometry::YzRect(
                YzRect { material_index, y0: min.y, y1: max.y, z0: min.z, z1: max.z, k: max.x },
            ),
            Geometry::YzRect(
                YzRect { material_index, y0: min.y, y1: max.y, z0: min.z, z1: max.z, k: min.x },
            ),
        ]
    }

    /// The box between the corners `min` and `max`.
    pub fn new(min: Vec3, max: Vec3, material_index: usize) -> (b: CornellBox)
        ensures
            b.min == min,
            b.max == max,
            b.sides.objects@ == CornellBox::sides_spec(min, max, material_index),
    {
        let mut objects: Vec<Geometry> = Vec::new();
        objects.push(
            Geometry::XyRect(XyRect::new(min.x, max.x, min.y, max.y, max.z, material_index)),
        );
        objects.push(
            Geometry::XyRect(XyRect::new(min.x, max.x, min.y, max.y, min.z, material_index)),
        );
        objects.push(
            Geometry::XzRect(XzRect::new(min.x, max.x, min.z, max.z, max.y, material_index)),
        );
        objects.push(
            Geometry::XzRect(XzRect::new(min.x, max.x, min.z, max.z, min.y, material_index)),
        );
        objects.push(
            Geometry::YzRect(YzRect::new(min.y, max.y, min.z, max.z, max.x, material_index)),
        );
        objects.push(
            Geometry::YzRect(YzRect::new(min.y, max.y, min.z, max.z, min.x, material_index)),
        );
        proof {
            assert(objects@ =~= CornellBox::sides_spec(min, max, material_index));
        }
        CornellBox { min: min, max: max, sides: HittableList::new(objects) }
    }

    /// The nearest hit of a ray on any of the six faces: that of the list
    /// of faces (see [`HittableList::hit`]).
    pub fn hit<B, L>(
        &self,
        r: &Ray,
        t_min: Scalar,
        t_max: Scalar,
        box_hit: &B,
        leaf_hit: &L,
    ) -> (res: Option<HitRecord>) where
        B: Fn(&Aabb, &Ray, Scalar, Scalar) -> bool,
        L: Fn(&Geometry, &Ray, Scalar, Scalar) -> Option<HitRecord>,

        requires
            Geometry::always_callable(box_hit, leaf_hit),
        ensures
            self.sides.hit_outcome(r, t_min, t_max, box_hit, leaf_hit, res),
        decreases self, 0nat,
    {
        self.sides.hit(r, t_min, t_max, box_hit, leaf_hit)
    }

    /// The box itself.
    pub fn bounding_box(&self) -> (b: Option<Aabb>)
        ensures
            b == Some(Aabb { min: self.min, max: self.max }),
    {
        Some(Aabb::new(self.min, self.max))
    }
}

} // verus!
