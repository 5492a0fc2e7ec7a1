//! Plain lists of shapes.

use crate::geometry::aabb::{aggregate, Aabb};
use crate::geometry::Geometry;
use crate::intersection::hit_record::HitRecord;
use crate::intersection::ray::Ray;
use crate::scalar::Scalar;
use vstd::prelude::*;

verus! {

/// Shapes in no particular order.
pub struct HittableList {
    pub objects: Vec<Geometry>,
}

impl HittableList {
    /// The list of the given shapes.
    pub fn new(objects: Vec<Geometry>) -> (l: HittableList)
        ensures
            l.objects == objects,
    {
        HittableList { objects }
    }

    /// The far end of the window about which the next member is asked: the
    /// root of the hit found so far, and `t_max` while there is none.
    pub open spec fn window_end(t_max: Scalar, best: Option<HitRecord>) -> Scalar {
        match best {
            Some(record) => record.root,
            None => t_max,
        }
    }

    /// The hit to keep after one more member was asked: what it found, and
    /// the earlier hit where it found nothing.
    pub open spec fn later(earlier: Option<HitRecord>, found: Option<HitRecord>) -> Option<
        HitRecord,
    > {
        match found {
            Some(_) => found,
            None => earlier,
        }
    }

    /// Whether asking the first `n` members in turn may leave the search
    /// with `best` as the hit found so far. The search starts with no hit;
    /// every member is asked about the window that ends at the root of the
    /// hit found so far, and a member that reports a hit replaces it.
    pub open spec fn scan<B, L>(
        &self,
        n: nat,
        r: &Ray,
        t_min: Scalar,
        t_max: Scalar,
        box_hit: &B,
        leaf_hit: &L,
        best: Option<HitRecord>,
    ) -> bool where
        B: Fn(&Aabb, &Ray, Scalar, Scalar) -> bool,
        L: Fn(&Geometry, &Ray, Scalar, Scalar) -> Option<HitRecord>,

        decreases self, n,
    {
        if n == 0 {
            best is None
        } else if n > self.objects.len() {
            false
        } else {
            exists|earlier: Option<HitRecord>, found: Option<HitRecord>|
                {
                    &&& self.scan((n - 1) as nat, r, t_min, t_max, box_hit, leaf_hit, earlier)
                    &&& self.objects[n - 1].hit_outcome(
                        r,
                        t_min,
                        HittableList::window_end(t_max, earlier),
                        box_hit,
                        leaf_hit,
                        found,
                    )
                    &&& best == #[trigger] HittableList::later(earlier, found)
                }
        }
    }

    /// Whether `res` is what [`hit`](Self::hit) may report with the given
    /// tests: what is left after all members were asked in turn.
    pub open spec fn hit_outcome<B, L>(
        &self,
        r: &Ray,
        t_min: Scalar,
        t_max: Scalar,
        box_hit: &B,
        leaf_hit: &L,
        res: Option<HitRecord>,
    ) -> bool where
        B: Fn(&Aabb, &Ray, Scalar, Scalar) -> bool,
        L: Fn(&Geometry, &Ray, Scalar, Scalar) -> Option<HitRecord>,

        decreases self, self.objects.len() + 1,
    {
        self.scan(self.objects.len() as nat, r, t_min, t_max, box_hit, leaf_hit, res)
    }

    /// The nearest hit of a ray on any member of the list, within the window
    /// from `t_min` to `t_max`. The members are asked in turn, each about
    /// the window that ends where the nearest hit so far lies, so that a
    /// later hit is never farther than an earlier one. See
    /// [`Geometry::hit`] for how a member is asked.
    pub fn hit<B, L>(
        &self,
        r: &Ray,
        t_min: Scalar,
        t_max: Scalar,
        box_hit: &B,
        leaf_hit: &L,
    ) -> (res: Option<HitRecord>) where
        B: Fn(&Aabb, &Ray, Scalar, Scalar) -> bool,
        L: Fn(&Geometry, &Ray, Scalar, Scalar) -> Option<HitRecord>,

        requires
            Geometry::always_callable(box_hit, leaf_hit),
        ensures
            self.hit_outcome(r, t_min, t_max, box_hit, leaf_hit, res),
        decreases self, 0nat,
    {
        let mut closest_so_far = t_max;
        let mut hit_anything: Option<HitRecord> = None;
        let mut i: usize = 0;
        while i < self.objects.len()
            invariant
                i <= self.objects.len(),
                Geometry::always_callable(box_hit, leaf_hit),
                closest_so_far == HittableList::window_end(t_max, hit_anything),
                self.scan(i as nat, r, t_min, t_max, box_hit, leaf_hit, hit_anything),
            decreases self.objects.len() - i,
        {
            let ghost earlier = hit_anything;
            let found = self.objects[i].hit(r, t_min, closest_so_far, box_hit, leaf_hit);
            if let Some(hit_record) = found {
                closest_so_far = hit_record.root;
                hit_anything = Some(hit_record);
            }
            proof {
                assert(hit_anything == HittableList::later(earlier, found));
            }
            i = i + 1;
        }
        hit_anything
    }

    /// Whether `extents` may be the boxes that the first `n` members report
    /// for the shutter interval from `t0` to `t1`.
    pub open spec fn measured<E>(
        &self,
        n: nat,
        t0: Scalar,
        t1: Scalar,
        leaf_box: &E,
        extents: Seq<Option<Aabb>>,
    ) -> bool where E: Fn(&Geometry, Scalar, Scalar) -> Option<Aabb>
        decreases self, n,
    {
        &&& extents.len() == n
        &&& n <= self.objects.len()
        &&& n > 0 ==> {
            &&& self.measured((n - 1) as nat, t0, t1, leaf_box, extents.drop_last())
            &&& self.objects[n - 1].box_outcome(t0, t1, leaf_box, extents.last())
        }
    }

    /// Whether `res` is what [`bounding_box`](Self::bounding_box) may
    /// report: the box around the boxes that the members report (see
    /// [`aggregate`]).
    pub open spec fn box_outcome<E>(
        &self,
        t0: Scalar,
        t1: Scalar,
        leaf_box: &E,
        res: Option<Aabb>,
    ) -> bool where E: Fn(&Geometry, Scalar, Scalar) -> Option<Aabb>
        decreases self, self.objects.len() + 1,
    {
        exists|extents: Seq<Option<Aabb>>|
            {
                &&& self.measured(self.objects.len() as nat, t0, t1, leaf_box, extents)
                &&& res == #[trigger] aggregate(extents)
            }
    }

    /// The box around the list for the shutter interval from `t0` to `t1`:
    /// the box around the boxes of all members, and none for an empty list
    /// or where a member reports none. See [`Geometry::bounding_box`] for
    /// how a member is asked.
    pub fn bounding_box<E>(&self, t0: Scalar, t1: Scalar, leaf_box: &E) -> (res: Option<
        Aabb,
    >) where E: Fn(&Geometry, Scalar, Scalar) -> Option<Aabb>
        requires
            Geometry::measurable(leaf_box),
        ensures
            self.box_outcome(t0, t1, leaf_box, res),
        decreases self, 0nat,
    {
        let mut extents: Vec<Option<Aabb>> = Vec::new();
        let mut i: usize = 0;
        while i < self.objects.len()
            invariant
                i <= self.objects.len(),
                Geometry::measurable(leaf_box),
                self.measured(i as nat, t0, t1, leaf_box, extents@),
            decreases self.objects.len() - i,
        {
            let ghost before = extents@;
            let extent = self.objects[i].bounding_box(t0, t1, leaf_box);
            extents.push(extent);
            i = i + 1;
            proof {
                assert(extents@.drop_last() == before);
                assert(extents@.last() == extent);
            }
        }
        Aabb::surrounding_all(&extents)
    }
}

} // verus!
