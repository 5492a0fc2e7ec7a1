//! Shapes, their bounding boxes, and the hierarchy built over them.

pub mod aabb;
pub mod bvh;
pub mod constant_medium;
pub mod cornell_box;
pub mod hittable;
pub mod moving_sphere;
pub mod rotate_y;
pub mod sphere;
pub mod translate;
pub mod xy_rect;
pub mod xz_rect;
pub mod yz_rect;

use crate::geometry::bvh::BvhNode;
use crate::geometry::constant_medium::ConstantMedium;
use crate::geometry::cornell_box::CornellBox;
use crate::geometry::hittable::HittableList;
use crate::geometry::moving_sphere::MovingSphere;
use crate::geometry::rotate_y::RotateY;
use crate::geometry::sphere::Sphere;
use crate::geometry::translate::Translate;
use crate::geometry::xy_rect::XyRect;
use crate::geometry::xz_rect::XzRect;
use crate::geometry::yz_rect::YzRect;
use crate::geometry::aabb::{aggregate, Aabb};
use crate::intersection::hit_record::HitRecord;
use crate::intersection::ray::Ray;
use crate::scalar::Scalar;
use vstd::prelude::*;

verus! {

/// Every kind of shape a scene can hold.
pub enum Geometry {
    Sphere(Sphere),
    XyRect(XyRect),
    XzRect(XzRect),
    YzRect(YzRect),
    Translate(Translate),
    RotateY(RotateY),
    CornellBox(CornellBox),
    ConstantMedium(ConstantMedium),
    BvhNode(BvhNode),
    MovingSphere(MovingSphere),
    HittableList(HittableList),
}

/// Whether every shape of a list refers to materials among the first
/// `materials` only.
pub open spec fn all_below(objects: Seq<Geometry>, materials: int) -> bool
    decreases objects,
{
    forall|i: int|
        0 <= i < objects.len() ==> (#[trigger] objects[i]).materials_below(materials)
}

fn list_refers_below(objects: &Vec<Geometry>, materials: usize) -> (ok: bool)
    ensures
        ok == all_below(objects@, materials as int),
    decreases objects,
{
    let mut i: usize = 0;
    while i < objects.len()
        invariant
            i <= objects.len(),
            forall|k: int| 0 <= k < i ==> (#[trigger] objects@[k]).materials_below(materials as int),
        decreases objects.len() - i,
    {
        if !objects[i].refers_to_materials_below(materials) {
            return false;
        }
        i = i + 1;
    }
    true
}

impl Geometry {
    /// Whether both tests may be called on every argument.
    pub open spec fn always_callable<B, L>(box_hit: &B, leaf_hit: &L) -> bool where
        B: Fn(&Aabb, &Ray, Scalar, Scalar) -> bool,
        L: Fn(&Geometry, &Ray, Scalar, Scalar) -> Option<HitRecord>,
     {
        &&& forall|b: &Aabb, r: &Ray, t_min: Scalar, t_max: Scalar| #[trigger]
            call_requires(*box_hit, (b, r, t_min, t_max))
        &&& forall|g: &Geometry, r: &Ray, t_min: Scalar, t_max: Scalar| #[trigger]
            call_requires(*leaf_hit, (g, r, t_min, t_max))
    }

    /// Whether the measure of leaves may be called on every argument.
    pub open spec fn measurable<E>(leaf_box: &E) -> bool where
        E: Fn(&Geometry, Scalar, Scalar) -> Option<Aabb>,
     {
        forall|g: &Geometry, t0: Scalar, t1: Scalar| #[trigger] call_requires(*leaf_box, (g, t0, t1))
    }

    /// Whether `res` is what [`bounding_box`](Self::bounding_box) may
    /// report with the given measure of leaves.
    pub open spec fn box_outcome<E>(
        &self,
        t0: Scalar,
        t1: Scalar,
        leaf_box: &E,
        res: Option<Aabb>,
    ) -> bool where E: Fn(&Geometry, Scalar, Scalar) -> Option<Aabb>
        decreases self, 1nat,
    {
        match self {
            Geometry::BvhNode(node) => res == Some(node.bounding_box),
            Geometry::RotateY(rotated) => res == if rotated.has_box {
                Some(rotated.bbox)
            } else {
                None
            },
            Geometry::CornellBox(sides) => res == Some(Aabb { min: sides.min, max: sides.max }),
            Geometry::ConstantMedium(medium) => medium.boundary.box_outcome(t0, t1, leaf_box, res),
            Geometry::HittableList(list) => list.box_outcome(t0, t1, leaf_box, res),
            _ => call_ensures(*leaf_box, (self, t0, t1), res),
        }
    }

    /// The box around this shape for the shutter interval from `t0` to
    /// `t1`, or none if the shape has no finite extent.
    ///
    /// A hierarchy node, a turned shape and a box of rectangles hold their
    /// box. A medium has the box of its boundary, and a list the box around
    /// its members' boxes. The box of any other shape is a matter of
    /// arithmetic, and the library learns it from `leaf_box`.
    pub fn bounding_box<E>(&self, t0: Scalar, t1: Scalar, leaf_box: &E) -> (res: Option<
        Aabb,
    >) where E: Fn(&Geometry, Scalar, Scalar) -> Option<Aabb>
        requires
            Geometry::measurable(leaf_box),
        ensures
            self.box_outcome(t0, t1, leaf_box, res),
        decreases self, 1nat,
    {
        match self {
            Geometry::BvhNode(node) => node.bounding_box(),
            Geometry::RotateY(rotated) => rotated.bounding_box(),
            Geometry::CornellBox(sides) => sides.bounding_box(),
            Geometry::ConstantMedium(medium) => medium.bounding_box(t0, t1, leaf_box),
            Geometry::HittableList(list) => list.bounding_box(t0, t1, leaf_box),
            _ => (*leaf_box)(self, t0, t1),
        }
    }

    /// Whether every material that the shape or anything inside it refers
    /// to is one of the first `materials` materials.
    pub open spec fn materials_below(&self, materials: int) -> bool
        decreases self,
    {
        match self {
            Geometry::Sphere(s) => s.material_index < materials,
            Geometry::XyRect(r) => r.material_index < materials,
            Geometry::XzRect(r) => r.material_index < materials,
            Geometry::YzRect(r) => r.material_index < materials,
            Geometry::MovingSphere(s) => s.material_index < materials,
            Geometry::Translate(t) => t.object.materials_below(materials),
            Geometry::RotateY(r) => r.object.materials_below(materials),
            Geometry::ConstantMedium(m) => m.phase_function < materials
                && m.boundary.materials_below(materials),
            Geometry::BvhNode(n) => n.left.materials_below(materials) && n.right.materials_below(
                materials,
            ),
            Geometry::CornellBox(b) => all_below(b.sides.objects@, materials),
            Geometry::HittableList(l) => all_below(l.objects@, materials),
        }
    }

    /// See [`materials_below`](Self::materials_below).
    pub fn refers_to_materials_below(&self, materials: usize) -> (ok: bool)
        ensures
            ok == self.materials_below(materials as int),
        decreases self,
    {
        match self {
            Geometry::Sphere(s) => s.material_index < materials,
            Geometry::XyRect(r) => r.material_index < materials,
            Geometry::XzRect(r) => r.material_index < materials,
            Geometry::YzRect(r) => r.material_index < materials,
            Geometry::MovingSphere(s) => s.material_index < materials,
            Geometry::Translate(t) => t.object.refers_to_materials_below(materials),
            Geometry::RotateY(r) => r.object.refers_to_materials_below(materials),
            Geometry::ConstantMedium(m) => m.phase_function < materials
                && m.boundary.refers_to_materials_below(materials),
            Geometry::BvhNode(n) => n.left.refers_to_materials_below(materials)
                && n.right.refers_to_materials_below(materials),
            Geometry::CornellBox(b) => list_refers_below(&b.sides.objects, materials),
            Geometry::HittableList(l) => list_refers_below(&l.objects, materials),
        }
    }

    /// Whether `res` is what [`hit`](Self::hit) may report with the given
    /// tests.
    pub open spec fn hit_outcome<B, L>(
        &self,
        r: &Ray,
        t_min: Scalar,
        t_max: Scalar,
        box_hit: &B,
        leaf_hit: &L,
        res: Option<HitRecord>,
    ) -> bool where
        B: Fn(&Aabb, &Ray, Scalar, Scalar) -> bool,
        L: Fn(&Geometry, &Ray, Scalar, Scalar) -> Option<HitRecord>,

        decreases self, 1nat,
    {
        match self {
            Geometry::BvhNode(node) => node.hit_outcome(r, t_min, t_max, box_hit, leaf_hit, res),
            Geometry::HittableList(list) => list.hit_outcome(
                r,
                t_min,
                t_max,
                box_hit,
                leaf_hit,
                res,
            ),
            Geometry::CornellBox(sides) => sides.sides.hit_outcome(
                r,
                t_min,
                t_max,
                box_hit,
                leaf_hit,
                res,
            ),
            _ => call_ensures(*leaf_hit, (self, r, t_min, t_max), res),
        }
    }

    /// The nearest hit of a ray on this shape within the window from `t_min`
    /// to `t_max`.
    ///
    /// The library walks hierarchy nodes, lists and boxes of rectangles
    /// itself. Whether the ray passes through a node's box it learns from
    /// `box_hit`, and what the ray hits on any other shape from `leaf_hit`:
    /// both take the ray and the window they are to judge.
    pub fn hit<B, L>(
        &self,
        r: &Ray,
        t_min: Scalar,
        t_max: Scalar,
        box_hit: &B,
        leaf_hit: &L,
    ) -> (res: Option<HitRecord>) where
        B: Fn(&Aabb, &Ray, Scalar, Scalar) -> bool,
        L: Fn(&Geometry, &Ray, Scalar, Scalar) -> Option<HitRecord>,

        requires
            Geometry::always_callable(box_hit, leaf_hit),
        ensures
            self.hit_outcome(r, t_min, t_max, box_hit, leaf_hit, res),
        decreases self, 1nat,
    {
        match self {
            Geometry::BvhNode(node) => node.hit(r, t_min, t_max, box_hit, leaf_hit),
            Geometry::HittableList(list) => list.hit(r, t_min, t_max, box_hit, leaf_hit),
            Geometry::CornellBox(sides) => sides.hit(r, t_min, t_max, box_hit, leaf_hit),
            _ => (*leaf_hit)(self, r, t_min, t_max),
        }
    }
}

/// Whether every hit that the leaf test can report has a given property.
pub open spec fn leaf_hits_satisfy<L>(leaf_hit: &L, property: spec_fn(HitRecord) -> bool) -> bool where
    L: Fn(&Geometry, &Ray, Scalar, Scalar) -> Option<HitRecord>,
 {
    forall|g: &Geometry, r: &Ray, t_min: Scalar, t_max: Scalar, rec: HitRecord| #[trigger]
        call_ensures(*leaf_hit, (g, r, t_min, t_max), Some(rec)) ==> property(rec)
}

/// The search invents no hits: what it reports for a shape was reported by
/// the leaf test, for that shape or for one inside it. So a property that
/// every hit of the leaf test has, every hit of the search has too.
pub proof fn reported_hits_satisfy<B, L>(
    shape: &Geometry,
    r: &Ray,
    t_min: Scalar,
    t_max: Scalar,
    box_hit: &B,
    leaf_hit: &L,
    property: spec_fn(HitRecord) -> bool,
    rec: HitRecord,
) where
    B: Fn(&Aabb, &Ray, Scalar, Scalar) -> bool,
    L: Fn(&Geometry, &Ray, Scalar, Scalar) -> Option<HitRecord>,

    requires
        leaf_hits_satisfy(leaf_hit, property),
        shape.hit_outcome(r, t_min, t_max, box_hit, leaf_hit, Some(rec)),
    ensures
        property(rec),
    decreases shape, 1nat, 0nat,
{
    match shape {
        Geometry::BvhNode(node) => {
            let (left, right) = choose|left: Option<HitRecord>, right: Option<HitRecord>|
                {
                    &&& node.left.hit_outcome(r, t_min, t_max, box_hit, leaf_hit, left)
                    &&& node.right.hit_outcome(r, t_min, t_max, box_hit, leaf_hit, right)
                    &&& Some(rec) == #[trigger] HitRecord::nearer_spec(left, right)
                };
            if left == Some(rec) {
                reported_hits_satisfy(&*node.left, r, t_min, t_max, box_hit, leaf_hit, property, rec);
            } else {
                reported_hits_satisfy(&*node.right, r, t_min, t_max, box_hit, leaf_hit, property, rec);
            }
        },
        Geometry::HittableList(list) => {
            scanned_hits_satisfy(
                list,
                list.objects.len() as nat,
                r,
                t_min,
                t_max,
                box_hit,
                leaf_hit,
                property,
                rec,
            );
        },
        Geometry::CornellBox(sides) => {
            scanned_hits_satisfy(
                &sides.sides,
                sides.sides.objects.len() as nat,
                r,
                t_min,
                t_max,
                box_hit,
                leaf_hit,
                property,
                rec,
            );
        },
        _ => {},
    }
}

/// The same for what is found after the first `n` members of a list were
/// asked in turn.
pub proof fn scanned_hits_satisfy<B, L>(
    list: &HittableList,
    n: nat,
    r: &Ray,
    t_min: Scalar,
    t_max: Scalar,
    box_hit: &B,
    leaf_hit: &L,
    property: spec_fn(HitRecord) -> bool,
    rec: HitRecord,
) where
    B: Fn(&Aabb, &Ray, Scalar, Scalar) -> bool,
    L: Fn(&Geometry, &Ray, Scalar, Scalar) -> Option<HitRecord>,

    requires
        leaf_hits_satisfy(leaf_hit, property),
        list.scan(n, r, t_min, t_max, box_hit, leaf_hit, Some(rec)),
    ensures
        property(rec),
    decreases list, 0nat, n,
{
    if n > 0 {
        let (earlier, found) = choose|earlier: Option<HitRecord>, found: Option<HitRecord>|
            {
                &&& list.scan((n - 1) as nat, r, t_min, t_max, box_hit, leaf_hit, earlier)
                &&& list.objects[n - 1].hit_outcome(
                    r,
                    t_min,
                    HittableList::window_end(t_max, earlier),
                    box_hit,
                    leaf_hit,
                    found,
                )
                &&& Some(rec) == #[trigger] HittableList::later(earlier, found)
            };
        if found is Some {
            reported_hits_satisfy(
                &list.objects[n - 1],
                r,
                t_min,
                HittableList::window_end(t_max, earlier),
                box_hit,
                leaf_hit,
                property,
                rec,
            );
        } else {
            scanned_hits_satisfy(
                list,
                (n - 1) as nat,
                r,
                t_min,
                t_max,
                box_hit,
                leaf_hit,
                property,
                rec,
            );
        }
    }
}

/// Whether each test answers the same question the same way every time.
pub open spec fn tests_are_functions<B, L>(box_hit: &B, leaf_hit: &L) -> bool where
    B: Fn(&Aabb, &Ray, Scalar, Scalar) -> bool,
    L: Fn(&Geometry, &Ray, Scalar, Scalar) -> Option<HitRecord>,
 {
    &&& forall|b: &Aabb, r: &Ray, t_min: Scalar, t_max: Scalar, x: bool, y: bool|
        #![trigger call_ensures(*box_hit, (b, r, t_min, t_max), x), call_ensures(*box_hit, (b, r, t_min, t_max), y)]
        call_ensures(*box_hit, (b, r, t_min, t_max), x) && call_ensures(
            *box_hit,
            (b, r, t_min, t_max),
            y,
        ) ==> x == y
    &&& forall|g: &Geometry, r: &Ray, t_min: Scalar, t_max: Scalar, x: Option<HitRecord>, y: Option<HitRecord>|
        #![trigger call_ensures(*leaf_hit, (g, r, t_min, t_max), x), call_ensures(*leaf_hit, (g, r, t_min, t_max), y)]
        call_ensures(*leaf_hit, (g, r, t_min, t_max), x) && call_ensures(
            *leaf_hit,
            (g, r, t_min, t_max),
            y,
        ) ==> x == y
}

/// The search adds no chance of its own: with tests that answer the same
/// question the same way every time, what it reports for a shape, a ray
/// and a window is determined.
pub proof fn hit_is_determined<B, L>(
    shape: &Geometry,
    r: &Ray,
    t_min: Scalar,
    t_max: Scalar,
    box_hit: &B,
    leaf_hit: &L,
    one: Option<HitRecord>,
    other: Option<HitRecord>,
) where
    B: Fn(&Aabb, &Ray, Scalar, Scalar) -> bool,
    L: Fn(&Geometry, &Ray, Scalar, Scalar) -> Option<HitRecord>,

    requires
        tests_are_functions(box_hit, leaf_hit),
        shape.hit_outcome(r, t_min, t_max, box_hit, leaf_hit, one),
        shape.hit_outcome(r, t_min, t_max, box_hit, leaf_hit, other),
    ensures
        one == other,
    decreases shape, 1nat, 0nat,
{
    match shape {
        Geometry::BvhNode(node) => {
            if call_ensures(*box_hit, (&node.bounding_box, r, t_min, t_max), true) {
                let (left, right) = choose|left: Option<HitRecord>, right: Option<HitRecord>|
                    {
                        &&& node.left.hit_outcome(r, t_min, t_max, box_hit, leaf_hit, left)
                        &&& node.right.hit_outcome(r, t_min, t_max, box_hit, leaf_hit, right)
                        &&& one == #[trigger] HitRecord::nearer_spec(left, right)
                    };
                let (left2, right2) = choose|left: Option<HitRecord>, right: Option<HitRecord>|
                    {
                        &&& node.left.hit_outcome(r, t_min, t_max, box_hit, leaf_hit, left)
                        &&& node.right.hit_outcome(r, t_min, t_max, box_hit, leaf_hit, right)
                        &&& other == #[trigger] HitRecord::nearer_spec(left, right)
                    };
                hit_is_determined(&*node.left, r, t_min, t_max, box_hit, leaf_hit, left, left2);
                hit_is_determined(&*node.right, r, t_min, t_max, box_hit, leaf_hit, right, right2);
            }
        },
        Geometry::HittableList(list) => {
            scan_is_determined(
                list,
                list.objects.len() as nat,
                r,
                t_min,
                t_max,
                box_hit,
                leaf_hit,
                one,
                other,
            );
        },
        Geometry::CornellBox(sides) => {
            scan_is_determined(
                &sides.sides,
                sides.sides.objects.len() as nat,
                r,
                t_min,
                t_max,
                box_hit,
                leaf_hit,
                one,
                other,
            );
        },
        _ => {},
    }
}

/// The same for what is found after the first `n` members of a list were
/// asked in turn.
pub proof fn scan_is_determined<B, L>(
    list: &HittableList,
    n: nat,
    r: &Ray,
    t_min: Scalar,
    t_max: Scalar,
    box_hit: &B,
    leaf_hit: &L,
    one: Option<HitRecord>,
    other: Option<HitRecord>,
) where
    B: Fn(&Aabb, &Ray, Scalar, Scalar) -> bool,
    L: Fn(&Geometry, &Ray, Scalar, Scalar) -> Option<HitRecord>,

    requires
        tests_are_functions(box_hit, leaf_hit),
        list.scan(n, r, t_min, t_max, box_hit, leaf_hit, one),
        list.scan(n, r, t_min, t_max, box_hit, leaf_hit, other),
    ensures
        one == other,
    decreases list, 0nat, n,
{
    if n > 0 {
        let (earlier, found) = choose|earlier: Option<HitRecord>, found: Option<HitRecord>|
            {
                &&& list.scan((n - 1) as nat, r, t_min, t_max, box_hit, leaf_hit, earlier)
                &&& list.objects[n - 1].hit_outcome(
                    r,
                    t_min,
                    HittableList::window_end(t_max, earlier),
                    box_hit,
                    leaf_hit,
                    found,
                )
                &&& one == #[trigger] HittableList::later(earlier, found)
            };
        let (earlier2, found2) = choose|earlier: Option<HitRecord>, found: Option<HitRecord>|
            {
                &&& list.scan((n - 1) as nat, r, t_min, t_max, box_hit, leaf_hit, earlier)
                &&& list.objects[n - 1].hit_outcome(
                    r,
                    t_min,
                    HittableList::window_end(t_max, earlier),
                    box_hit,
                    leaf_hit,
                    found,
                )
                &&& other == #[trigger] HittableList::later(earlier, found)
            };
        scan_is_determined(list, (n - 1) as nat, r, t_min, t_max, box_hit, leaf_hit, earlier, earlier2);
        hit_is_determined(
            &list.objects[n - 1],
            r,
            t_min,
            HittableList::window_end(t_max, earlier),
            box_hit,
            leaf_hit,
            found,
            found2,
        );
    }
}

/// Whether the measure of leaves answers the same question the same way
/// every time.
pub open spec fn measure_is_a_function<E>(leaf_box: &E) -> bool where
    E: Fn(&Geometry, Scalar, Scalar) -> Option<Aabb>,
 {
    forall|g: &Geometry, t0: Scalar, t1: Scalar, x: Option<Aabb>, y: Option<Aabb>|
        #![trigger call_ensures(*leaf_box, (g, t0, t1), x), call_ensures(*leaf_box, (g, t0, t1), y)]
        call_ensures(*leaf_box, (g, t0, t1), x) && call_ensures(*leaf_box, (g, t0, t1), y) ==> x
            == y
}

/// With a measure of leaves that answers the same question the same way
/// every time, the box that a shape reports is determined.
pub proof fn box_is_determined<E>(
    shape: &Geometry,
    t0: Scalar,
    t1: Scalar,
    leaf_box: &E,
    one: Option<Aabb>,
    other: Option<Aabb>,
) where E: Fn(&Geometry, Scalar, Scalar) -> Option<Aabb>
    requires
        measure_is_a_function(leaf_box),
        shape.box_outcome(t0, t1, leaf_box, one),
        shape.box_outcome(t0, t1, leaf_box, other),
    ensures
        one == other,
    decreases shape, 1nat, 0nat,
{
    match shape {
        Geometry::ConstantMedium(medium) => {
            assert(medium.boundary.box_outcome(t0, t1, leaf_box, one));
            assert(medium.boundary.box_outcome(t0, t1, leaf_box, other));
            box_is_determined(&*medium.boundary, t0, t1, leaf_box, one, other);
        },
        Geometry::HittableList(list) => {
            let n = list.objects.len() as nat;
            assert(list.box_outcome(t0, t1, leaf_box, one));
            assert(list.box_outcome(t0, t1, leaf_box, other));
            let first = choose|extents: Seq<Option<Aabb>>|
                {
                    &&& list.measured(n, t0, t1, leaf_box, extents)
                    &&& one == #[trigger] aggregate(extents)
                };
            let second = choose|extents: Seq<Option<Aabb>>|
                {
                    &&& list.measured(n, t0, t1, leaf_box, extents)
                    &&& other == #[trigger] aggregate(extents)
                };
            measures_are_determined(list, n, t0, t1, leaf_box, first, second);
        },
        _ => {},
    }
}

/// The same for the boxes that the first `n` members of a list report.
pub proof fn measures_are_determined<E>(
    list: &HittableList,
    n: nat,
    t0: Scalar,
    t1: Scalar,
    leaf_box: &E,
    one: Seq<Option<Aabb>>,
    other: Seq<Option<Aabb>>,
) where E: Fn(&Geometry, Scalar, Scalar) -> Option<Aabb>
    requires
        measure_is_a_function(leaf_box),
        list.measured(n, t0, t1, leaf_box, one),
        list.measured(n, t0, t1, leaf_box, other),
    ensures
        one == other,
    decreases list, 0nat, n,
{
    if n > 0 {
        measures_are_determined(
            list,
            (n - 1) as nat,
            t0,
            t1,
            leaf_box,
            one.drop_last(),
            other.drop_last(),
        );
        box_is_determined(&list.objects[n - 1], t0, t1, leaf_box, one.last(), other.last());
        assert(one =~= one.drop_last().push(one.last()));
        assert(other =~= other.drop_last().push(other.last()));
    } else {
        assert(one =~= other);
    }
}

} // verus!
