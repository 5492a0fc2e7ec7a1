//! Axis-aligned bounding boxes.

use crate::scalar::Scalar;
use crate::scalar::{max_laws, min_laws};
use crate::vec3::Vec3;
use vstd::prelude::*;

verus! {

/// A box with faces parallel to the coordinate planes, given by two corners.
#[derive(Clone, Copy, Debug, PartialEq, Eq, Structural)]
pub struct Aabb {
    pub min: Vec3,
    pub max: Vec3,
}

/// What a ray's line does along one axis of a box: the reciprocal of the
/// ray's direction along that axis, and the parameters at which the line
/// crosses the box's lower and upper face.
#[derive(Clone, Copy, Debug, PartialEq, Eq, Structural)]
pub struct Slab {
    pub inv_d: Scalar,
    pub t0: Scalar,
    pub t1: Scalar,
}

impl Slab {
    /// The three numbers of one axis.
    pub fn new(inv_d: Scalar, t0: Scalar, t1: Scalar) -> (s: Slab)
        ensures
            s == (Slab { inv_d, t0, t1 }),
    {
        Slab { inv_d, t0, t1 }
    }

    /// The parameter at which the ray enters the slab: the crossing of the
    /// upper face where the ray runs backwards along the axis, of the lower
    /// face otherwise.
    pub open spec fn entry(self) -> Scalar {
        if self.inv_d.lt_spec(Scalar::zero_spec()) {
            self.t1
        } else {
            self.t0
        }
    }

    /// The parameter at which the ray leaves the slab.
    pub open spec fn exit(self) -> Scalar {
        if self.inv_d.lt_spec(Scalar::zero_spec()) {
            self.t0
        } else {
            self.t1
        }
    }

    /// What the slab leaves of a window from `lo` to `hi`: the window from
    /// the later of entry and `lo` to the earlier of exit and `hi`.
    pub open spec fn narrow_spec(self, lo: Scalar, hi: Scalar) -> (Scalar, Scalar) {
        (
            if lo.lt_spec(self.entry()) {
                self.entry()
            } else {
                lo
            },
            if self.exit().lt_spec(hi) {
                self.exit()
            } else {
                hi
            },
        )
    }

    /// See [`narrow_spec`](Self::narrow_spec).
    pub fn narrow(self, lo: Scalar, hi: Scalar) -> (window: (Scalar, Scalar))
        ensures
            window == self.narrow_spec(lo, hi),
    {
        let backwards = self.inv_d.lt(Scalar::zero());
        let entry = if backwards {
            self.t1
        } else {
            self.t0
        };
        let exit = if backwards {
            self.t0
        } else {
            self.t1
        };
        let near = if entry.gt(lo) {
            entry
        } else {
            lo
        };
        let far = if exit.lt(hi) {
            exit
        } else {
            hi
        };
        (near, far)
    }

    /// Whether the ray is inside the slab for some stretch of the window
    /// from `t_min` to `t_max`: what the slab leaves of the window must
    /// start strictly before it ends.
    pub open spec fn overlaps_spec(self, t_min: Scalar, t_max: Scalar) -> bool {
        !self.narrow_spec(t_min, t_max).1.le_spec(self.narrow_spec(t_min, t_max).0)
    }

    /// See [`overlaps_spec`](Self::overlaps_spec).
    pub fn overlaps(self, t_min: Scalar, t_max: Scalar) -> (r: bool)
        ensures
            r == self.overlaps_spec(t_min, t_max),
    {
        let (near, far) = self.narrow(t_min, t_max);
        !far.le(near)
    }
}

/// The box around a collection of shapes, from the boxes its members
/// report: the box around all of them, and none for an empty collection or
/// where a member reports none.
pub open spec fn aggregate(extents: Seq<Option<Aabb>>) -> Option<Aabb>
    decreases extents.len(),
{
    if extents.len() == 0 {
        None
    } else if extents.len() == 1 {
        extents[0]
    } else {
        match (aggregate(extents.drop_last()), extents.last()) {
            (Some(seen), Some(next)) => Some(seen.union(next)),
            _ => None,
        }
    }
}

impl Aabb {
    /// The box between two corners.
    pub fn new(min: Vec3, max: Vec3) -> (b: Aabb)
        ensures
            b == (Aabb { min, max }),
    {
        Aabb { min, max }
    }

    /// The smallest box around two boxes.
    pub open spec fn union(self, other: Aabb) -> Aabb {
        Aabb { min: self.min.min_spec(other.min), max: self.max.max_spec(other.max) }
    }

    /// Whether `other` lies inside this box: on every axis this box starts no
    /// later and ends no earlier, in the orders by which
    /// [`union`](Self::union) picks corners.
    pub open spec fn encloses(self, other: Aabb) -> bool {
        &&& self.min.x.low_key() <= other.min.x.low_key()
        &&& self.min.y.low_key() <= other.min.y.low_key()
        &&& self.min.z.low_key() <= other.min.z.low_key()
        &&& self.max.x.high_key() >= other.max.x.high_key()
        &&& self.max.y.high_key() >= other.max.y.high_key()
        &&& self.max.z.high_key() >= other.max.z.high_key()
    }

    /// The smallest box around two boxes: on every axis the lesser of the
    /// two minima and the greater of the two maxima.
    pub fn surrounding_box(box0: &Aabb, box1: &Aabb) -> (b: Aabb)
        ensures
            b == box0.union(*box1),
    {
        let small = Vec3::new(
            box0.min.x.min(box1.min.x),
            box0.min.y.min(box1.min.y),
            box0.min.z.min(box1.min.z),
        );
        let big = Vec3::new(
            box0.max.x.max(box1.max.x),
            box0.max.y.max(box1.max.y),
            box0.max.z.max(box1.max.z),
        );
        Aabb::new(small, big)
    }

    /// The box around a collection of shapes, from the boxes its members
    /// report (see [`aggregate`]).
    pub fn surrounding_all(extents: &Vec<Option<Aabb>>) -> (b: Option<Aabb>)
        ensures
            b == aggregate(extents@),
    {
        if extents.len() == 0 {
            return None;
        }
        let mut output_box: Option<Aabb> = extents[0];
        let mut i: usize = 1;
        proof {
            assert(extents@.subrange(0, 1).len() == 1);
        }
        while i < extents.len()
            invariant
                1 <= i <= extents.len(),
                output_box == aggregate(extents@.subrange(0, i as int)),
            decreases extents.len() - i,
        {
            proof {
                let next = extents@.subrange(0, i + 1);
                assert(next.drop_last() == extents@.subrange(0, i as int));
                assert(next.last() == extents@[i as int]);
            }
            output_box =
            match (output_box, extents[i]) {
                (Some(seen), Some(next)) => Some(Aabb::surrounding_box(&seen, &next)),
                _ => None,
            };
            i = i + 1;
        }
        proof {
            assert(extents@.subrange(0, extents@.len() as int) == extents@);
        }
        output_box
    }

    /// Whether a ray passes through a box within the window from `t_min` to
    /// `t_max`, judged from what its line does along each of the three axes.
    /// The window is narrowed slab by slab, each slab working on what the
    /// one before left of it, and the ray passes through the box exactly
    /// when something is left every time: there is then a stretch of the
    /// window in which the ray is inside all three slabs at once.
    pub fn hit(x: Slab, y: Slab, z: Slab, t_min: Scalar, t_max: Scalar) -> (r: bool)
        ensures
            r == Aabb::hit_spec(x, y, z, t_min, t_max),
    {
        let (a1, b1) = x.narrow(t_min, t_max);
        if b1.le(a1) {
            return false;
        }
        let (a2, b2) = y.narrow(a1, b1);
        if b2.le(a2) {
            return false;
        }
        let (a3, b3) = z.narrow(a2, b2);
        if b3.le(a3) {
            return false;
        }
        true
    }

    /// See [`hit`](Self::hit).
    pub open spec fn hit_spec(x: Slab, y: Slab, z: Slab, t_min: Scalar, t_max: Scalar) -> bool {
        let (a1, b1) = x.narrow_spec(t_min, t_max);
        let (a2, b2) = y.narrow_spec(a1, b1);
        let (a3, b3) = z.narrow_spec(a2, b2);
        &&& !b1.le_spec(a1)
        &&& !b2.le_spec(a2)
        &&& !b3.le_spec(a3)
    }
}

/// Whether a parameter lies strictly inside a slab: after the entry and
/// before the exit, both of them numbers.
pub open spec fn strictly_inside(slab: Slab, s: Scalar) -> bool {
    slab.entry().lt_spec(s) && s.lt_spec(slab.exit())
}

/// A ray that is strictly inside all three slabs at one parameter strictly
/// inside the window passes through the box. A ray through the centre of
/// a box is such a ray, at the parameter of the centre.
pub proof fn hit_where_all_slabs_meet(
    x: Slab,
    y: Slab,
    z: Slab,
    t_min: Scalar,
    t_max: Scalar,
    s: Scalar,
)
    requires
        t_min.lt_spec(s),
        s.lt_spec(t_max),
        strictly_inside(x, s),
        strictly_inside(y, s),
        strictly_inside(z, s),
    ensures
        Aabb::hit_spec(x, y, z, t_min, t_max),
{
}

/// A ray that leaves some slab before its origin does not pass through the
/// box in a window that starts at or after the origin. A ray that starts
/// outside a box and points away from it on some axis is such a ray.
pub proof fn miss_where_a_slab_lies_behind(
    x: Slab,
    y: Slab,
    z: Slab,
    t_min: Scalar,
    t_max: Scalar,
)
    requires
        Scalar::zero_spec().le_spec(t_min),
        !t_max.nan(),
        x.exit().lt_spec(Scalar::zero_spec()) || y.exit().lt_spec(Scalar::zero_spec())
            || z.exit().lt_spec(Scalar::zero_spec()),
    ensures
        !Aabb::hit_spec(x, y, z, t_min, t_max),
{
}

/// Slabs that share no parameter let no ray through, whatever the window:
/// where one slab is left no later than another is entered, the ray
/// misses the box.
pub proof fn miss_where_slabs_are_apart(
    x: Slab,
    y: Slab,
    z: Slab,
    t_min: Scalar,
    t_max: Scalar,
)
    requires
        !t_min.nan(),
        !t_max.nan(),
        y.exit().le_spec(x.entry()) || x.exit().le_spec(y.entry()) || z.exit().le_spec(x.entry())
            || x.exit().le_spec(z.entry()) || z.exit().le_spec(y.entry()) || y.exit().le_spec(
            z.entry(),
        ),
    ensures
        !Aabb::hit_spec(x, y, z, t_min, t_max),
{
}

/// One more member's box taken into what a collection has come to so far:
/// nothing yet, no box because a member has none, or the box around the
/// members seen.
pub open spec fn collect(seen: Option<Option<Aabb>>, next: Option<Aabb>) -> Option<Option<Aabb>> {
    match seen {
        None => Some(next),
        Some(None) => Some(None),
        Some(Some(b)) => match next {
            Some(n) => Some(Some(b.union(n))),
            None => Some(None),
        },
    }
}

/// [`collect`] as a function value.
pub open spec fn collect_fn() -> spec_fn(Option<Option<Aabb>>, Option<Aabb>) -> Option<
    Option<Aabb>,
> {
    |seen: Option<Option<Aabb>>, next: Option<Aabb>| collect(seen, next)
}

/// The box around a collection is what comes of taking in its members'
/// boxes one by one.
pub proof fn aggregate_is_a_fold(extents: Seq<Option<Aabb>>)
    ensures
        extents.len() > 0 ==> extents.fold_left(None, collect_fn()) == Some(aggregate(extents)),
        extents.len() == 0 ==> aggregate(extents) is None && extents.fold_left(
            None,
            collect_fn(),
        ) is None,
    decreases extents.len(),
{
    reveal_with_fuel(Seq::fold_left, 2);
    if extents.len() > 1 {
        aggregate_is_a_fold(extents.drop_last());
    }
}

/// The box around a collection does not depend on the order in which its
/// members are listed.
pub proof fn aggregate_ignores_order(a: Seq<Option<Aabb>>, b: Seq<Option<Aabb>>)
    requires
        a.to_multiset() == b.to_multiset(),
    ensures
        aggregate(a) == aggregate(b),
{
    assert forall|x: Option<Aabb>, y: Option<Aabb>, v: Option<Option<Aabb>>| #[trigger]
        collect_fn()(collect_fn()(v, x), y) == collect_fn()(collect_fn()(v, y), x) by {
        match (v, x, y) {
            (None, Some(p), Some(q)) => {
                surrounding_box_commutative(p, q);
            },
            (Some(Some(c)), Some(p), Some(q)) => {
                surrounding_box_commutative(p, q);
                surrounding_box_associative(c, p, q);
                surrounding_box_associative(c, q, p);
            },
            _ => {},
        }
    }
    vstd::seq_lib::lemma_fold_left_permutation(a, b, collect_fn(), None);
    vstd::seq_lib::to_multiset_len(a);
    vstd::seq_lib::to_multiset_len(b);
    aggregate_is_a_fold(a);
    aggregate_is_a_fold(b);
}

/// The box around two boxes does not depend on their order.
pub proof fn surrounding_box_commutative(a: Aabb, b: Aabb)
    ensures
        a.union(b) == b.union(a),
{
    let zero = Scalar { bits: 0 };
    min_laws(a.min.x, b.min.x, zero);
    min_laws(a.min.y, b.min.y, zero);
    min_laws(a.min.z, b.min.z, zero);
    max_laws(a.max.x, b.max.x, zero);
    max_laws(a.max.y, b.max.y, zero);
    max_laws(a.max.z, b.max.z, zero);
}

/// The box around a box and itself is that box.
pub proof fn surrounding_box_idempotent(a: Aabb)
    ensures
        a.union(a) == a,
{
}

/// Boxes may be gathered in any grouping.
pub proof fn surrounding_box_associative(a: Aabb, b: Aabb, c: Aabb)
    ensures
        a.union(b).union(c) == a.union(b.union(c)),
{
    min_laws(a.min.x, b.min.x, c.min.x);
    min_laws(a.min.y, b.min.y, c.min.y);
    min_laws(a.min.z, b.min.z, c.min.z);
    max_laws(a.max.x, b.max.x, c.max.x);
    max_laws(a.max.y, b.max.y, c.max.y);
    max_laws(a.max.z, b.max.z, c.max.z);
}

/// The box around two boxes encloses both, and is enclosed by every box
/// that encloses both.
pub proof fn surrounding_box_is_least(a: Aabb, b: Aabb, c: Aabb)
    ensures
        a.union(b).encloses(a),
        a.union(b).encloses(b),
        c.encloses(a) && c.encloses(b) ==> c.encloses(a.union(b)),
{
}

/// Enclosing is reflexive and transitive, and two boxes that enclose each
/// other are the same box.
pub proof fn encloses_is_an_order(a: Aabb, b: Aabb, c: Aabb)
    ensures
        a.encloses(a),
        a.encloses(b) && b.encloses(c) ==> a.encloses(c),
        a.encloses(b) && b.encloses(a) ==> a == b,
{
}

} // verus!
