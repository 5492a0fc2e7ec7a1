//! The bounding-volume hierarchy: a binary tree over the shapes of a scene
//! in which every node knows the box around everything below it.

use crate::error::TracerError;
use crate::geometry::aabb::{surrounding_box_associative, surrounding_box_commutative, Aabb};
use crate::geometry::{
    box_is_determined, hit_is_determined, leaf_hits_satisfy, measure_is_a_function,
    reported_hits_satisfy, tests_are_functions, Geometry,
};
use crate::intersection::hit_record::HitRecord;
use crate::intersection::ray::Ray;
use crate::scalar::Scalar;
use crate::vec3::Axis;
use rand::rngs::StdRng;
use std::sync::Arc;
use vstd::prelude::*;
use vstd::seq_lib::{lemma_fold_left_permutation, lemma_multiset_commutative};

verus! {

/// A shape together with the bounding box it reports, if it reports one.
pub struct BvhItem {
    pub object: Arc<Geometry>,
    pub bounding_box: Option<Aabb>,
}

/// A node of the hierarchy: two children and the box around both.
pub struct BvhNode {
    pub left: Arc<Geometry>,
    pub right: Arc<Geometry>,
    pub bounding_box: Aabb,
}

/// A second handle on a shared shape, made with `Arc::clone`. The new handle
/// points at the same shape, so the two are equal.
#[verifier::external_body]
fn share(object: &Arc<Geometry>) -> (handle: Arc<Geometry>)
    ensures
        handle == *object,
{
    Arc::clone(object)
}

/// The box of one more item gathered into the box around those seen so
/// far.
pub open spec fn gather(seen: Option<Aabb>, next: BvhItem) -> Option<Aabb> {
    match seen {
        None => Some(next.bounding_box.unwrap()),
        Some(b) => Some(b.union(next.bounding_box.unwrap())),
    }
}

/// [`gather`] as a function value.
pub open spec fn gather_fn() -> spec_fn(Option<Aabb>, BvhItem) -> Option<Aabb> {
    |seen: Option<Aabb>, next: BvhItem| gather(seen, next)
}

/// The box around the boxes of all the given items; none for no items.
pub open spec fn union_all(items: Seq<BvhItem>) -> Option<Aabb> {
    items.fold_left(None, gather_fn())
}

/// Whether every item reports a bounding box.
pub open spec fn all_bounded(items: Seq<BvhItem>) -> bool {
    forall|i: int| 0 <= i < items.len() ==> (#[trigger] items[i]).bounding_box is Some
}

/// The scalar by which an item is ordered along an axis: the minimum of its
/// box on that axis (positive zero for an item without a box).
pub open spec fn axis_key(item: BvhItem, axis: Axis) -> Scalar {
    match item.bounding_box {
        Some(b) => b.min.component(axis),
        None => Scalar::zero_spec(),
    }
}

/// Whether the items stand in ascending order of their boxes' minima on
/// `axis`, in the one-to-one order of [`Scalar::total`]. Among numbers this
/// is numeric order, with negative zero before positive zero.
pub open spec fn sorted_on(items: Seq<BvhItem>, axis: Axis) -> bool {
    forall|i: int, j: int|
        0 <= i <= j < items.len() ==> axis_key(#[trigger] items[i], axis).total() <= axis_key(
            #[trigger] items[j],
            axis,
        ).total()
}

/// The two children of a node over exactly two items: the first item goes
/// left exactly when its box starts numerically before the second's.
pub open spec fn ordered_pair(first: BvhItem, second: BvhItem, axis: Axis) -> (BvhItem, BvhItem) {
    if axis_key(first, axis).lt_spec(axis_key(second, axis)) {
        (first, second)
    } else {
        (second, first)
    }
}

/// The node that a shape is, if it is one.
pub open spec fn as_node(shape: Geometry) -> Option<BvhNode> {
    match shape {
        Geometry::BvhNode(node) => Some(node),
        _ => None,
    }
}

impl BvhNode {
    /// The left child, if it is a node.
    pub open spec fn left_node(self) -> Option<BvhNode> {
        as_node(*self.left)
    }

    /// The right child, if it is a node.
    pub open spec fn right_node(self) -> Option<BvhNode> {
        as_node(*self.right)
    }
}

/// Whether `node` is a hierarchy over `items`, all of which report a box.
///
/// * Over one item, both children are that item.
/// * Over two items, the children are the two items, ordered along some
///   axis.
/// * Over more, the children are themselves nodes: the items, sorted along
///   some axis, are split at the middle index, the left child is a
///   hierarchy over the first part and the right child one over the rest.
///
/// In every case the node's box is the box around its children's boxes.
pub open spec fn built_from(node: BvhNode, items: Seq<BvhItem>) -> bool
    decreases items.len(),
{
    if items.len() == 0 || !all_bounded(items) {
        false
    } else if items.len() == 1 {
        &&& node.left == items[0].object
        &&& node.right == items[0].object
        &&& node.bounding_box == items[0].bounding_box.unwrap().union(
            items[0].bounding_box.unwrap(),
        )
    } else if items.len() == 2 {
        exists|axis: Axis|
            {
                let (l, r) = #[trigger] ordered_pair(items[0], items[1], axis);
                &&& node.left == l.object
                &&& node.right == r.object
                &&& node.bounding_box == l.bounding_box.unwrap().union(r.bounding_box.unwrap())
            }
    } else {
        &&& node.left_node() matches Some(l)
        &&& node.right_node() matches Some(r)
        &&& node.bounding_box == l.bounding_box.union(r.bounding_box)
        &&& exists|axis: Axis, sorted: Seq<BvhItem>|
            {
                &&& #[trigger] sorted_on(sorted, axis)
                &&& sorted.len() == items.len()
                &&& sorted.to_multiset() == items.to_multiset()
                &&& built_from(l, sorted.subrange(0, items.len() as int / 2))
                &&& built_from(r, sorted.subrange(items.len() as int / 2, items.len() as int))
            }
    }
}

/// Whether `items` pairs every shape of `list`, in order, with a box that
/// the shape may report for the shutter interval from `t0` to `t1`.
pub open spec fn itemized<E>(
    list: Seq<Arc<Geometry>>,
    t0: Scalar,
    t1: Scalar,
    leaf_box: &E,
    items: Seq<BvhItem>,
) -> bool where E: Fn(&Geometry, Scalar, Scalar) -> Option<Aabb> {
    &&& items.len() == list.len()
    &&& forall|i: int|
        0 <= i < list.len() ==> (#[trigger] items[i]).object == list[i] && list[i].box_outcome(
            t0,
            t1,
            leaf_box,
            items[i].bounding_box,
        )
}

impl BvhItem {
    /// The shape with the box it reports.
    pub fn new(object: Arc<Geometry>, bounding_box: Option<Aabb>) -> (item: BvhItem)
        ensures
            item.object == object,
            item.bounding_box == bounding_box,
    {
        BvhItem { object, bounding_box }
    }

    fn duplicate(&self) -> (item: BvhItem)
        ensures
            item == *self,
    {
        BvhItem { object: share(&self.object), bounding_box: self.bounding_box }
    }

    fn key(&self, axis: Axis) -> (k: i64)
        ensures
            k == axis_key(*self, axis).total(),
    {
        match self.bounding_box {
            Some(b) => b.min.get(axis).total_key(),
            None => Scalar::zero().total_key(),
        }
    }
}

/// Whether the first item's box starts numerically before the second's on
/// the given axis.
pub fn compare_boxes(a: &BvhItem, b: &BvhItem, axis: Axis) -> (less: bool)
    ensures
        less == axis_key(*a, axis).lt_spec(axis_key(*b, axis)),
{
    let key_a = match a.bounding_box {
        Some(b) => b.min.get(axis),
        None => Scalar::zero(),
    };
    let key_b = match b.bounding_box {
        Some(b) => b.min.get(axis),
        None => Scalar::zero(),
    };
    key_a.lt(key_b)
}

fn copy_range(items: &Vec<BvhItem>, from: usize, to: usize) -> (out: Vec<BvhItem>)
    requires
        from <= to <= items.len(),
    ensures
        out@ == items@.subrange(from as int, to as int),
{
    let mut out: Vec<BvhItem> = Vec::new();
    let mut i: usize = from;
    while i < to
        invariant
            from <= i <= to <= items.len(),
            out@ == items@.subrange(from as int, i as int),
        decreases to - i,
    {
        out.push(items[i].duplicate());
        i = i + 1;
    }
    out
}

fn merge(a: &Vec<BvhItem>, b: &Vec<BvhItem>, axis: Axis) -> (out: Vec<BvhItem>)
    requires
        sorted_on(a@, axis),
        sorted_on(b@, axis),
    ensures
        out@.to_multiset() == a@.to_multiset().add(b@.to_multiset()),
        out@.len() == a@.len() + b@.len(),
        sorted_on(out@, axis),
{
    broadcast use vstd::seq_lib::group_to_multiset_ensures;
    broadcast use vstd::multiset::group_multiset_axioms;

    let mut out: Vec<BvhItem> = Vec::new();
    let mut i: usize = 0;
    let mut j: usize = 0;
    proof {
        assert(a@.subrange(0, 0) == Seq::<BvhItem>::empty());
        assert(b@.subrange(0, 0) == Seq::<BvhItem>::empty());
        assert(out@.to_multiset() == a@.subrange(0, 0).to_multiset().add(
            b@.subrange(0, 0).to_multiset(),
        ));
    }
    while i < a.len() || j < b.len()
        invariant
            i <= a.len(),
            j <= b.len(),
            out@.len() == i + j,
            sorted_on(a@, axis),
            sorted_on(b@, axis),
            sorted_on(out@, axis),
            out@.to_multiset() == a@.subrange(0, i as int).to_multiset().add(
                b@.subrange(0, j as int).to_multiset(),
            ),
            forall|k: int|
                0 <= k < out@.len() && i < a.len() ==> axis_key(#[trigger] out@[k], axis).total()
                    <= axis_key(a@[i as int], axis).total(),
            forall|k: int|
                0 <= k < out@.len() && j < b.len() ==> axis_key(#[trigger] out@[k], axis).total()
                    <= axis_key(b@[j as int], axis).total(),
        decreases a.len() - i + b.len() - j,
    {
        let take_left = if i >= a.len() {
            false
        } else if j >= b.len() {
            true
        } else {
            a[i].key(axis) <= b[j].key(axis)
        };
        let ghost before = out@;
        if take_left {
            out.push(a[i].duplicate());
            proof {
                let x = a@[i as int];
                let done_a = a@.subrange(0, i as int);
                let done_b = b@.subrange(0, j as int);
                assert(a@.subrange(0, i + 1) == done_a.push(x));
                assert(out@ == before.push(x));
                vstd::seq_lib::to_multiset_build(before, x);
                vstd::seq_lib::to_multiset_build(done_a, x);
                assert(done_a.to_multiset().insert(x).add(done_b.to_multiset())
                    =~= done_a.to_multiset().add(done_b.to_multiset()).insert(x));
            }
            i = i + 1;
        } else {
            out.push(b[j].duplicate());
            proof {
                let x = b@[j as int];
                let done_a = a@.subrange(0, i as int);
                let done_b = b@.subrange(0, j as int);
                assert(b@.subrange(0, j + 1) == done_b.push(x));
                assert(out@ == before.push(x));
                vstd::seq_lib::to_multiset_build(before, x);
                vstd::seq_lib::to_multiset_build(done_b, x);
                assert(done_a.to_multiset().add(done_b.to_multiset().insert(x))
                    =~= done_a.to_multiset().add(done_b.to_multiset()).insert(x));
            }
            j = j + 1;
        }
    }
    proof {
        assert(a@.subrange(0, i as int) == a@);
        assert(b@.subrange(0, j as int) == b@);
    }
    out
}

fn sort_range(items: &Vec<BvhItem>, from: usize, to: usize, axis: Axis) -> (out: Vec<BvhItem>)
    requires
        from <= to <= items.len(),
    ensures
        out@.to_multiset() == items@.subrange(from as int, to as int).to_multiset(),
        out@.len() == to - from,
        sorted_on(out@, axis),
    decreases to - from,
{
    if to - from <= 1 {
        copy_range(items, from, to)
    } else {
        let mid = from + (to - from) / 2;
        let a = sort_range(items, from, mid, axis);
        let b = sort_range(items, mid, to, axis);
        proof {
            assert(items@.subrange(from as int, to as int) == items@.subrange(
                from as int,
                mid as int,
            ) + items@.subrange(mid as int, to as int));
            lemma_multiset_commutative(
                items@.subrange(from as int, mid as int),
                items@.subrange(mid as int, to as int),
            );
        }
        merge(&a, &b, axis)
    }
}

/// The items in ascending order of their boxes' minima on `axis`: the same
/// items, each as often as before.
pub fn sort_boxes(items: &Vec<BvhItem>, axis: Axis) -> (sorted: Vec<BvhItem>)
    ensures
        sorted@.to_multiset() == items@.to_multiset(),
        sorted@.len() == items@.len(),
        sorted_on(sorted@, axis),
{
    proof {
        assert(items@.subrange(0, items@.len() as int) == items@);
    }
    sort_range(items, 0, items.len(), axis)
}

fn has_unbounded(items: &Vec<BvhItem>) -> (found: bool)
    ensures
        found == !all_bounded(items@),
{
    let mut i: usize = 0;
    while i < items.len()
        invariant
            i <= items.len(),
            forall|k: int| 0 <= k < i ==> (#[trigger] items@[k]).bounding_box is Some,
        decreases items.len() - i,
    {
        if items[i].bounding_box.is_none() {
            return true;
        }
        i = i + 1;
    }
    false
}

fn build(items: Vec<BvhItem>, rng: &mut StdRng) -> (node: BvhNode)
    requires
        items.len() >= 1,
        all_bounded(items@),
    ensures
        built_from(node, items@),
    decreases items.len(),
{
    broadcast use vstd::seq_lib::group_to_multiset_ensures;

    let axis = Axis::random(rng);
    let object_span = items.len();
    if object_span == 1 {
        // a single shape is both children of its node
        let only = items[0].bounding_box.unwrap();
        BvhNode::new(
            share(&items[0].object),
            share(&items[0].object),
            Aabb::surrounding_box(&only, &only),
        )
    } else if object_span == 2 {
        let (l, r) = if compare_boxes(&items[0], &items[1], axis) {
            (&items[0], &items[1])
        } else {
            (&items[1], &items[0])
        };
        let box_left = l.bounding_box.unwrap();
        let box_right = r.bounding_box.unwrap();
        let node = BvhNode::new(
            share(&l.object),
            share(&r.object),
            Aabb::surrounding_box(&box_left, &box_right),
        );
        proof {
            let (sl, sr) = ordered_pair(items@[0], items@[1], axis);
            assert(node.left == sl.object);
        }
        node
    } else {
        let sorted = sort_boxes(&items, axis);
        let mid = object_span / 2;
        let left_list = copy_range(&sorted, 0, mid);
        let right_list = copy_range(&sorted, mid, object_span);
        proof {
            assert forall|i: int| 0 <= i < sorted@.len() implies (#[trigger] sorted@[i]).bounding_box is Some by {
                assert(sorted@.contains(sorted@[i]));
                assert(items@.to_multiset().count(sorted@[i]) > 0);
                assert(items@.contains(sorted@[i]));
            }
        }
        let left = build(left_list, rng);
        let right = build(right_list, rng);
        let bounding_box = Aabb::surrounding_box(&left.bounding_box, &right.bounding_box);
        let ghost l = left;
        let ghost r = right;
        let node = BvhNode::new(
            Arc::new(Geometry::BvhNode(left)),
            Arc::new(Geometry::BvhNode(right)),
            bounding_box,
        );
        proof {
            assert(*node.left == Geometry::BvhNode(l));
            assert(*node.right == Geometry::BvhNode(r));
            assert(sorted_on(sorted@, axis));
            assert(built_from(l, sorted@.subrange(0, items@.len() as int / 2)));
            assert(built_from(r, sorted@.subrange(items@.len() as int / 2, items@.len() as int)));
        }
        node
    }
}

impl BvhNode {
    /// The node of the given children and box.
    pub fn new(left: Arc<Geometry>, right: Arc<Geometry>, bounding_box: Aabb) -> (n: BvhNode)
        ensures
            n.left == left,
            n.right == right,
            n.bounding_box == bounding_box,
    {
        BvhNode { left, right, bounding_box }
    }

    /// Builds the hierarchy over the given shapes, each with the box it
    /// reports.
    ///
    /// Fails with [`TracerError::BvhBoundingBoxError`] exactly when some item
    /// reports no box. Otherwise the result is a hierarchy over the items in
    /// the sense of [`built_from`], whichever axes the generator picked on
    /// the way, and its box is the box around all the items' boxes.
    pub fn from_items(items: Vec<BvhItem>, rng: &mut StdRng) -> (res: Result<BvhNode, TracerError>)
        requires
            items.len() >= 1,
        ensures
            res is Err <==> !all_bounded(items@),
            res matches Err(e) ==> e is BvhBoundingBoxError,
            res matches Ok(node) ==> built_from(node, items@) && Some(node.bounding_box)
                == union_all(items@),
    {
        if has_unbounded(&items) {
            return Err(TracerError::BvhBoundingBoxError);
        }
        let ghost listed = items@;
        let node = build(items, rng);
        proof {
            hierarchy_box_is_union(node, listed);
        }
        Ok(node)
    }

    /// Builds the hierarchy over the given shapes for the shutter interval
    /// from `t0` to `t1`.
    ///
    /// Every shape is asked for its box once (see
    /// [`Geometry::bounding_box`]); the hierarchy is then built over the
    /// shapes with these boxes as [`from_items`](Self::from_items) builds
    /// it, and fails as it fails.
    pub fn from_list<E>(
        list: Vec<Arc<Geometry>>,
        t0: Scalar,
        t1: Scalar,
        leaf_box: &E,
        rng: &mut StdRng,
    ) -> (res: Result<BvhNode, TracerError>) where E: Fn(&Geometry, Scalar, Scalar) -> Option<Aabb>
        requires
            list.len() >= 1,
            Geometry::measurable(leaf_box),
        ensures
            exists|items: Seq<BvhItem>|
                {
                    &&& #[trigger] itemized(list@, t0, t1, leaf_box, items)
                    &&& res is Err <==> !all_bounded(items)
                    &&& res matches Err(e) ==> e is BvhBoundingBoxError
                    &&& res matches Ok(node) ==> built_from(node, items) && Some(node.bounding_box)
                        == union_all(items)
                },
    {
        let mut items: Vec<BvhItem> = Vec::new();
        let mut i: usize = 0;
        while i < list.len()
            invariant
                i <= list.len(),
                Geometry::measurable(leaf_box),
                itemized(list@.subrange(0, i as int), t0, t1, leaf_box, items@),
            decreases list.len() - i,
        {
            let extent = list[i].bounding_box(t0, t1, leaf_box);
            items.push(BvhItem::new(share(&list[i]), extent));
            i = i + 1;
        }
        proof {
            assert(list@.subrange(0, list@.len() as int) == list@);
        }
        BvhNode::from_items(items, rng)
    }

    /// Whether `res` is what [`hit`](Self::hit) may report with the given
    /// tests: nothing where the test of the node's own box fails; otherwise
    /// the nearer of what the two children report, both asked about the same
    /// ray and the same, unnarrowed window.
    pub open spec fn hit_outcome<B, L>(
        &self,
        r: &Ray,
        t_min: Scalar,
        t_max: Scalar,
        box_hit: &B,
        leaf_hit: &L,
        res: Option<HitRecord>,
    ) -> bool where
        B: Fn(&Aabb, &Ray, Scalar, Scalar) -> bool,
        L: Fn(&Geometry, &Ray, Scalar, Scalar) -> Option<HitRecord>,

        decreases self, 0nat,
    {
        ||| {
            &&& call_ensures(*box_hit, (&self.bounding_box, r, t_min, t_max), false)
            &&& res is None
        }
        ||| {
            &&& call_ensures(*box_hit, (&self.bounding_box, r, t_min, t_max), true)
            &&& exists|left: Option<HitRecord>, right: Option<HitRecord>|
                {
                    &&& self.left.hit_outcome(r, t_min, t_max, box_hit, leaf_hit, left)
                    &&& self.right.hit_outcome(r, t_min, t_max, box_hit, leaf_hit, right)
                    &&& res == #[trigger] HitRecord::nearer_spec(left, right)
                }
        }
    }

    /// The nearest hit of a ray below this node, within the window from
    /// `t_min` to `t_max`.
    ///
    /// The node's own box is tested first, with `box_hit`; a miss there is a
    /// miss. Otherwise both children are asked, against the window as given,
    /// and of two hits the one with the smaller root is reported (the right
    /// one where neither root is smaller). See
    /// [`Geometry::hit`] for how a child is asked.
    pub fn hit<B, L>(
        &self,
        r: &Ray,
        t_min: Scalar,
        t_max: Scalar,
        box_hit: &B,
        leaf_hit: &L,
    ) -> (res: Option<HitRecord>) where
        B: Fn(&Aabb, &Ray, Scalar, Scalar) -> bool,
        L: Fn(&Geometry, &Ray, Scalar, Scalar) -> Option<HitRecord>,

        requires
            Geometry::always_callable(box_hit, leaf_hit),
        ensures
            self.hit_outcome(r, t_min, t_max, box_hit, leaf_hit, res),
        decreases self, 0nat,
    {
        if !(*box_hit)(&self.bounding_box, r, t_min, t_max) {
            return None;
        }
        let hit_left = self.left.hit(r, t_min, t_max, box_hit, leaf_hit);
        let hit_right = self.right.hit(r, t_min, t_max, box_hit, leaf_hit);
        HitRecord::nearer(hit_left, hit_right)
    }

    /// The box around everything below the node.
    pub fn bounding_box(&self) -> (b: Option<Aabb>)
        ensures
            b == Some(self.bounding_box),
    {
        Some(self.bounding_box)
    }
}

/// Gathering boxes one at a time gives the same box in whichever order two
/// of them come.
pub proof fn gather_commutes()
    ensures
        vstd::seq_lib::commutative_foldl(gather_fn()),
{
    assert forall|x: BvhItem, y: BvhItem, v: Option<Aabb>| #[trigger]
        gather_fn()(gather_fn()(v, x), y) == gather_fn()(gather_fn()(v, y), x) by {
        let bx = x.bounding_box.unwrap();
        let by = y.bounding_box.unwrap();
        surrounding_box_commutative(bx, by);
        match v {
            None => {},
            Some(b) => {
                surrounding_box_associative(b, bx, by);
                surrounding_box_associative(b, by, bx);
            },
        }
    }
}

/// The box around a collection of items does not depend on the order in
/// which they are listed.
pub proof fn union_all_ignores_order(a: Seq<BvhItem>, b: Seq<BvhItem>)
    requires
        a.to_multiset() == b.to_multiset(),
    ensures
        union_all(a) == union_all(b),
{
    gather_commutes();
    lemma_fold_left_permutation(a, b, gather_fn(), None);
}

/// The box around one item is the item's box.
pub proof fn union_all_of_one(items: Seq<BvhItem>)
    requires
        items.len() == 1,
    ensures
        union_all(items) == Some(items[0].bounding_box.unwrap()),
{
    reveal_with_fuel(Seq::fold_left, 2);
}

/// The box around the items of two lists is the box around the boxes
/// around each list.
pub proof fn union_all_of_parts(a: Seq<BvhItem>, b: Seq<BvhItem>)
    requires
        a.len() > 0,
        b.len() > 0,
    ensures
        union_all(a) is Some,
        union_all(b) is Some,
        union_all(a + b) == Some(union_all(a).unwrap().union(union_all(b).unwrap())),
    decreases b.len(),
{
    reveal_with_fuel(Seq::fold_left, 2);
    assert((a + b).drop_last() == a + b.drop_last());
    assert((a + b).last() == b.last());
    if b.len() == 1 {
        assert(a + b.drop_last() == a);
        union_all_of_one(b);
    } else {
        union_all_of_parts(a, b.drop_last());
        surrounding_box_associative(
            union_all(a).unwrap(),
            union_all(b.drop_last()).unwrap(),
            b.last().bounding_box.unwrap(),
        );
    }
}

/// The box of a hierarchy is the box around all the boxes of its items.
pub proof fn hierarchy_box_is_union(node: BvhNode, items: Seq<BvhItem>)
    requires
        built_from(node, items),
    ensures
        Some(node.bounding_box) == union_all(items),
    decreases items.len(),
{
    if items.len() == 1 {
        union_all_of_one(items);
    } else if items.len() == 2 {
        let first = items.subrange(0, 1);
        let second = items.subrange(1, 2);
        assert(items == first + second);
        union_all_of_one(first);
        union_all_of_one(second);
        union_all_of_parts(first, second);
        surrounding_box_commutative(
            items[0].bounding_box.unwrap(),
            items[1].bounding_box.unwrap(),
        );
    } else {
        let l = node.left_node().unwrap();
        let r = node.right_node().unwrap();
        let mid = items.len() as int / 2;
        let (axis, sorted) = choose|axis: Axis, sorted: Seq<BvhItem>|
            {
                &&& #[trigger] sorted_on(sorted, axis)
                &&& sorted.len() == items.len()
                &&& sorted.to_multiset() == items.to_multiset()
                &&& built_from(l, sorted.subrange(0, mid))
                &&& built_from(r, sorted.subrange(mid, items.len() as int))
            };
        let first = sorted.subrange(0, mid);
        let second = sorted.subrange(mid, items.len() as int);
        hierarchy_box_is_union(l, first);
        hierarchy_box_is_union(r, second);
        assert(sorted == first + second);
        union_all_of_parts(first, second);
        union_all_ignores_order(sorted, items);
    }
}

/// Hierarchies over the same items, listed in whatever order and built
/// with whatever axes, have the same box.
pub proof fn hierarchies_share_their_box(
    first: BvhNode,
    first_items: Seq<BvhItem>,
    second: BvhNode,
    second_items: Seq<BvhItem>,
)
    requires
        built_from(first, first_items),
        built_from(second, second_items),
        first_items.to_multiset() == second_items.to_multiset(),
    ensures
        first.bounding_box == second.bounding_box,
{
    hierarchy_box_is_union(first, first_items);
    hierarchy_box_is_union(second, second_items);
    union_all_ignores_order(first_items, second_items);
}

/// Whether `res` is what the search may report for an item's shape (see
/// [`Geometry::hit_outcome`]). The shape may be of any kind: a sphere, a
/// list, a box of rectangles, a hierarchy of its own.
pub open spec fn item_hit<B, L>(
    item: BvhItem,
    r: &Ray,
    t_min: Scalar,
    t_max: Scalar,
    box_hit: &B,
    leaf_hit: &L,
    res: Option<HitRecord>,
) -> bool where
    B: Fn(&Aabb, &Ray, Scalar, Scalar) -> bool,
    L: Fn(&Geometry, &Ray, Scalar, Scalar) -> Option<HitRecord>,
 {
    item.object.hit_outcome(r, t_min, t_max, box_hit, leaf_hit, res)
}

/// The property of a hit that its root is a number.
pub open spec fn rooted() -> spec_fn(HitRecord) -> bool {
    |rec: HitRecord| !rec.root.nan()
}

/// Whether the tests play fair on the given items for one ray and window:
/// each test answers the same question the same way every time; a hit that
/// the leaf test reports has a number as root; and the box test never turns
/// down a box that encloses the box of an item that the ray hits.
pub open spec fn fair_tests<B, L>(
    items: Seq<BvhItem>,
    r: &Ray,
    t_min: Scalar,
    t_max: Scalar,
    box_hit: &B,
    leaf_hit: &L,
) -> bool where
    B: Fn(&Aabb, &Ray, Scalar, Scalar) -> bool,
    L: Fn(&Geometry, &Ray, Scalar, Scalar) -> Option<HitRecord>,
 {
    &&& tests_are_functions(box_hit, leaf_hit)
    &&& leaf_hits_satisfy(leaf_hit, rooted())
    &&& forall|item: BvhItem, b: &Aabb, h: HitRecord|
        #![trigger items.contains(item), call_ensures(*box_hit, (b, r, t_min, t_max), false), item_hit(item, r, t_min, t_max, box_hit, leaf_hit, Some(h))]
        items.contains(item) && b.encloses(item.bounding_box.unwrap()) && item_hit(
            item,
            r,
            t_min,
            t_max,
            box_hit,
            leaf_hit,
            Some(h),
        ) ==> !call_ensures(*box_hit, (b, r, t_min, t_max), false)
}

/// Whether `res` is what a search through all the items one by one would
/// find: nothing if the ray hits none of them, and otherwise the hit on one
/// of them such that no item is hit at a numerically smaller root.
pub open spec fn nearest_among<B, L>(
    res: Option<HitRecord>,
    items: Seq<BvhItem>,
    r: &Ray,
    t_min: Scalar,
    t_max: Scalar,
    box_hit: &B,
    leaf_hit: &L,
) -> bool where
    B: Fn(&Aabb, &Ray, Scalar, Scalar) -> bool,
    L: Fn(&Geometry, &Ray, Scalar, Scalar) -> Option<HitRecord>,
 {
    match res {
        None => forall|item: BvhItem, h: HitRecord|
            #![trigger items.contains(item), item_hit(item, r, t_min, t_max, box_hit, leaf_hit, Some(h))]
            items.contains(item) ==> !item_hit(item, r, t_min, t_max, box_hit, leaf_hit, Some(h)),
        Some(best) => {
            &&& exists|item: BvhItem|
                #![trigger items.contains(item)]
                items.contains(item) && item_hit(item, r, t_min, t_max, box_hit, leaf_hit, res)
            &&& forall|item: BvhItem, h: HitRecord|
                #![trigger items.contains(item), item_hit(item, r, t_min, t_max, box_hit, leaf_hit, Some(h))]
                items.contains(item) && item_hit(
                    item,
                    r,
                    t_min,
                    t_max,
                    box_hit,
                    leaf_hit,
                    Some(h),
                ) ==> !h.root.lt_spec(best.root)
        },
    }
}

/// The items of a list are those of its two parts, whatever order the parts
/// were sorted into.
proof fn members_of_parts(items: Seq<BvhItem>, sorted: Seq<BvhItem>, mid: int, item: BvhItem)
    requires
        sorted.to_multiset() == items.to_multiset(),
        0 <= mid <= sorted.len(),
    ensures
        items.contains(item) <==> sorted.subrange(0, mid).contains(item) || sorted.subrange(
            mid,
            sorted.len() as int,
        ).contains(item),
{
    broadcast use vstd::seq_lib::group_to_multiset_ensures;

    let first = sorted.subrange(0, mid);
    let second = sorted.subrange(mid, sorted.len() as int);
    assert(sorted.contains(item) <==> items.contains(item)) by {
        vstd::seq_lib::to_multiset_contains(sorted, item);
        vstd::seq_lib::to_multiset_contains(items, item);
    }
    if sorted.contains(item) {
        let k = choose|k: int| 0 <= k < sorted.len() && sorted[k] == item;
        if k < mid {
            assert(first[k] == item);
        } else {
            assert(second[k - mid] == item);
        }
    }
    if first.contains(item) {
        let k = choose|k: int| 0 <= k < first.len() && first[k] == item;
        assert(sorted[k] == item);
    }
    if second.contains(item) {
        let k = choose|k: int| 0 <= k < second.len() && second[k] == item;
        assert(sorted[k + mid] == item);
    }
}

/// The box of a hierarchy encloses the box of each of its items.
pub proof fn hierarchy_box_encloses(node: BvhNode, items: Seq<BvhItem>, item: BvhItem)
    requires
        built_from(node, items),
        items.contains(item),
    ensures
        node.bounding_box.encloses(item.bounding_box.unwrap()),
    decreases items.len(),
{
    let k = choose|k: int| 0 <= k < items.len() && items[k] == item;
    if items.len() == 1 {
    } else if items.len() == 2 {
    } else {
        let l = node.left_node().unwrap();
        let r = node.right_node().unwrap();
        let mid = items.len() as int / 2;
        let (axis, sorted) = choose|axis: Axis, sorted: Seq<BvhItem>|
            {
                &&& #[trigger] sorted_on(sorted, axis)
                &&& sorted.len() == items.len()
                &&& sorted.to_multiset() == items.to_multiset()
                &&& built_from(l, sorted.subrange(0, mid))
                &&& built_from(r, sorted.subrange(mid, items.len() as int))
            };
        members_of_parts(items, sorted, mid, item);
        if sorted.subrange(0, mid).contains(item) {
            hierarchy_box_encloses(l, sorted.subrange(0, mid), item);
        } else {
            hierarchy_box_encloses(r, sorted.subrange(mid, items.len() as int), item);
        }
    }
}

/// Tests that play fair on a list play fair on every list of items taken
/// from it.
proof fn fair_on_part<B, L>(
    items: Seq<BvhItem>,
    part: Seq<BvhItem>,
    r: &Ray,
    t_min: Scalar,
    t_max: Scalar,
    box_hit: &B,
    leaf_hit: &L,
) where
    B: Fn(&Aabb, &Ray, Scalar, Scalar) -> bool,
    L: Fn(&Geometry, &Ray, Scalar, Scalar) -> Option<HitRecord>,

    requires
        fair_tests(items, r, t_min, t_max, box_hit, leaf_hit),
        forall|item: BvhItem| #[trigger] part.contains(item) ==> items.contains(item),
    ensures
        fair_tests(part, r, t_min, t_max, box_hit, leaf_hit),
{
    assert forall|item: BvhItem, b: &Aabb, h: HitRecord|
        #![trigger part.contains(item), call_ensures(*box_hit, (b, r, t_min, t_max), false), item_hit(item, r, t_min, t_max, box_hit, leaf_hit, Some(h))]
        part.contains(item) && b.encloses(item.bounding_box.unwrap()) && item_hit(
            item,
            r,
            t_min,
            t_max,
            box_hit,
            leaf_hit,
            Some(h),
        ) implies !call_ensures(*box_hit, (b, r, t_min, t_max), false) by {
        assert(items.contains(item));
    }
}

/// What one item reports is the nearest hit among that item alone.
proof fn nearest_of_one<B, L>(
    items: Seq<BvhItem>,
    item: BvhItem,
    r: &Ray,
    t_min: Scalar,
    t_max: Scalar,
    box_hit: &B,
    leaf_hit: &L,
    res: Option<HitRecord>,
) where
    B: Fn(&Aabb, &Ray, Scalar, Scalar) -> bool,
    L: Fn(&Geometry, &Ray, Scalar, Scalar) -> Option<HitRecord>,

    requires
        fair_tests(items, r, t_min, t_max, box_hit, leaf_hit),
        items.contains(item),
        item.object.hit_outcome(r, t_min, t_max, box_hit, leaf_hit, res),
    ensures
        nearest_among(res, seq![item], r, t_min, t_max, box_hit, leaf_hit),
{
    let one = seq![item];
    assert(one[0] == item);
    assert(item_hit(item, r, t_min, t_max, box_hit, leaf_hit, res));
    assert forall|other: BvhItem| #[trigger] one.contains(other) implies other == item by {
        let k = choose|k: int| 0 <= k < one.len() && one[k] == other;
    }
    match res {
        None => {
            assert forall|other: BvhItem, h: HitRecord|
                #![trigger one.contains(other), item_hit(other, r, t_min, t_max, box_hit, leaf_hit, Some(h))]
                one.contains(other) implies !item_hit(
                    other,
                    r,
                    t_min,
                    t_max,
                    box_hit,
                    leaf_hit,
                    Some(h),
                ) by {
                assert(other == item);
                if item_hit(other, r, t_min, t_max, box_hit, leaf_hit, Some(h)) {
                    hit_is_determined(
                        &*item.object,
                        r,
                        t_min,
                        t_max,
                        box_hit,
                        leaf_hit,
                        res,
                        Some(h),
                    );
                }
            }
        },
        Some(best) => {
            assert(one.contains(item));
            assert forall|other: BvhItem, h: HitRecord|
                #![trigger one.contains(other), item_hit(other, r, t_min, t_max, box_hit, leaf_hit, Some(h))]
                one.contains(other) && item_hit(
                    other,
                    r,
                    t_min,
                    t_max,
                    box_hit,
                    leaf_hit,
                    Some(h),
                ) implies !h.root.lt_spec(best.root) by {
                assert(other == item);
                hit_is_determined(
                    &*item.object,
                    r,
                    t_min,
                    t_max,
                    box_hit,
                    leaf_hit,
                    res,
                    Some(h),
                );
            }
        },
    }
}

/// A hierarchy finds what a search through all its items one by one would
/// find.
///
/// Take a hierarchy over a list of items of any kind, a ray and a window,
/// and tests that play fair on the items (see [`fair_tests`]). Then
/// whatever [`BvhNode::hit`] reports is the nearest hit among the items
/// (see [`nearest_among`]): it reports nothing exactly when the ray hits no
/// item, and otherwise the hit on an item than which no item is hit
/// nearer. Where two items are hit at the same root the hierarchy may
/// report either.
pub proof fn hierarchy_finds_nearest<B, L>(
    node: BvhNode,
    items: Seq<BvhItem>,
    r: &Ray,
    t_min: Scalar,
    t_max: Scalar,
    box_hit: &B,
    leaf_hit: &L,
    res: Option<HitRecord>,
) where
    B: Fn(&Aabb, &Ray, Scalar, Scalar) -> bool,
    L: Fn(&Geometry, &Ray, Scalar, Scalar) -> Option<HitRecord>,

    requires
        built_from(node, items),
        fair_tests(items, r, t_min, t_max, box_hit, leaf_hit),
        node.hit_outcome(r, t_min, t_max, box_hit, leaf_hit, res),
    ensures
        nearest_among(res, items, r, t_min, t_max, box_hit, leaf_hit),
    decreases items.len(),
{
    if call_ensures(*box_hit, (&node.bounding_box, r, t_min, t_max), false) && res is None {
        assert forall|item: BvhItem, h: HitRecord|
            #![trigger items.contains(item), item_hit(item, r, t_min, t_max, box_hit, leaf_hit, Some(h))]
            items.contains(item) implies !item_hit(
                item,
                r,
                t_min,
                t_max,
                box_hit,
                leaf_hit,
                Some(h),
            ) by {
            hierarchy_box_encloses(node, items, item);
        }
    } else {
        let (left, right) = choose|left: Option<HitRecord>, right: Option<HitRecord>|
            {
                &&& node.left.hit_outcome(r, t_min, t_max, box_hit, leaf_hit, left)
                &&& node.right.hit_outcome(r, t_min, t_max, box_hit, leaf_hit, right)
                &&& res == #[trigger] HitRecord::nearer_spec(left, right)
            };
        let first: Seq<BvhItem>;
        let second: Seq<BvhItem>;
        if items.len() == 1 {
            first = seq![items[0]];
            second = seq![items[0]];
            assert(first[0] == items[0]);
            assert(items.contains(items[0]));
            nearest_of_one(items, items[0], r, t_min, t_max, box_hit, leaf_hit, left);
            nearest_of_one(items, items[0], r, t_min, t_max, box_hit, leaf_hit, right);
            assert forall|item: BvhItem|
                (first.contains(item) || second.contains(item)) == items.contains(item) by {
                if items.contains(item) {
                    let k = choose|k: int| 0 <= k < items.len() && items[k] == item;
                    assert(item == first[0]);
                }
                if first.contains(item) {
                    let k = choose|k: int| 0 <= k < first.len() && first[k] == item;
                }
            }
        } else if items.len() == 2 {
            let axis = choose|axis: Axis|
                {
                    let (l, r) = #[trigger] ordered_pair(items[0], items[1], axis);
                    &&& node.left == l.object
                    &&& node.right == r.object
                    &&& node.bounding_box == l.bounding_box.unwrap().union(
                        r.bounding_box.unwrap(),
                    )
                };
            let (l, rr) = ordered_pair(items[0], items[1], axis);
            assert(items.contains(items[0]));
            assert(items.contains(items[1]));
            first = seq![l];
            second = seq![rr];
            assert(first[0] == l);
            assert(second[0] == rr);
            nearest_of_one(items, l, r, t_min, t_max, box_hit, leaf_hit, left);
            nearest_of_one(items, rr, r, t_min, t_max, box_hit, leaf_hit, right);
            assert forall|item: BvhItem|
                (first.contains(item) || second.contains(item)) == items.contains(item) by {
                if items.contains(item) {
                    let k = choose|k: int| 0 <= k < items.len() && items[k] == item;
                    assert(item == first[0] || item == second[0]);
                }
                if first.contains(item) {
                    let k = choose|k: int| 0 <= k < first.len() && first[k] == item;
                }
                if second.contains(item) {
                    let k = choose|k: int| 0 <= k < second.len() && second[k] == item;
                }
            }
        } else {
            let l = node.left_node().unwrap();
            let rr = node.right_node().unwrap();
            let mid = items.len() as int / 2;
            let (axis, sorted) = choose|axis: Axis, sorted: Seq<BvhItem>|
                {
                    &&& #[trigger] sorted_on(sorted, axis)
                    &&& sorted.len() == items.len()
                    &&& sorted.to_multiset() == items.to_multiset()
                    &&& built_from(l, sorted.subrange(0, mid))
                    &&& built_from(rr, sorted.subrange(mid, items.len() as int))
                };
            first = sorted.subrange(0, mid);
            second = sorted.subrange(mid, items.len() as int);
            assert forall|item: BvhItem|
                (first.contains(item) || second.contains(item)) == items.contains(item) by {
                members_of_parts(items, sorted, mid, item);
            }
            fair_on_part(items, first, r, t_min, t_max, box_hit, leaf_hit);
            fair_on_part(items, second, r, t_min, t_max, box_hit, leaf_hit);
            assert(l.hit_outcome(r, t_min, t_max, box_hit, leaf_hit, left));
            assert(rr.hit_outcome(r, t_min, t_max, box_hit, leaf_hit, right));
            hierarchy_finds_nearest(l, first, r, t_min, t_max, box_hit, leaf_hit, left);
            hierarchy_finds_nearest(rr, second, r, t_min, t_max, box_hit, leaf_hit, right);
        }
        nearer_of_nearest(left, right, first, second, items, r, t_min, t_max, box_hit, leaf_hit);
    }
}

/// A hit that the search reports for an item has a number as root, where
/// the hits of the leaf test have.
proof fn item_hits_are_rooted<B, L>(
    item: BvhItem,
    r: &Ray,
    t_min: Scalar,
    t_max: Scalar,
    box_hit: &B,
    leaf_hit: &L,
    h: HitRecord,
) where
    B: Fn(&Aabb, &Ray, Scalar, Scalar) -> bool,
    L: Fn(&Geometry, &Ray, Scalar, Scalar) -> Option<HitRecord>,

    requires
        leaf_hits_satisfy(leaf_hit, rooted()),
        item_hit(item, r, t_min, t_max, box_hit, leaf_hit, Some(h)),
    ensures
        !h.root.nan(),
{
    reported_hits_satisfy(&*item.object, r, t_min, t_max, box_hit, leaf_hit, rooted(), h);
}

/// The nearer of the nearest hits among two lists is the nearest hit among
/// both.
proof fn nearer_of_nearest<B, L>(
    left: Option<HitRecord>,
    right: Option<HitRecord>,
    first: Seq<BvhItem>,
    second: Seq<BvhItem>,
    items: Seq<BvhItem>,
    r: &Ray,
    t_min: Scalar,
    t_max: Scalar,
    box_hit: &B,
    leaf_hit: &L,
) where
    B: Fn(&Aabb, &Ray, Scalar, Scalar) -> bool,
    L: Fn(&Geometry, &Ray, Scalar, Scalar) -> Option<HitRecord>,

    requires
        leaf_hits_satisfy(leaf_hit, rooted()),
        nearest_among(left, first, r, t_min, t_max, box_hit, leaf_hit),
        nearest_among(right, second, r, t_min, t_max, box_hit, leaf_hit),
        forall|item: BvhItem|
            #![trigger first.contains(item)]
            #![trigger second.contains(item)]
            #![trigger items.contains(item)]
            (first.contains(item) || second.contains(item)) == items.contains(item),
    ensures
        nearest_among(
            HitRecord::nearer_spec(left, right),
            items,
            r,
            t_min,
            t_max,
            box_hit,
            leaf_hit,
        ),
{
    let res = HitRecord::nearer_spec(left, right);
    if left is Some {
        let a = choose|item: BvhItem|
            #![trigger first.contains(item)]
            first.contains(item) && item_hit(item, r, t_min, t_max, box_hit, leaf_hit, left);
        assert(items.contains(a));
        item_hits_are_rooted(a, r, t_min, t_max, box_hit, leaf_hit, left.unwrap());
    }
    if right is Some {
        let b = choose|item: BvhItem|
            #![trigger second.contains(item)]
            second.contains(item) && item_hit(item, r, t_min, t_max, box_hit, leaf_hit, right);
        assert(items.contains(b));
        item_hits_are_rooted(b, r, t_min, t_max, box_hit, leaf_hit, right.unwrap());
    }
    match res {
        None => {
            assert forall|item: BvhItem, h: HitRecord|
                #![trigger items.contains(item), item_hit(item, r, t_min, t_max, box_hit, leaf_hit, Some(h))]
                items.contains(item) implies !item_hit(
                    item,
                    r,
                    t_min,
                    t_max,
                    box_hit,
                    leaf_hit,
                    Some(h),
                ) by {
                assert(first.contains(item) || second.contains(item));
            }
        },
        Some(best) => {
            assert forall|item: BvhItem, h: HitRecord|
                #![trigger items.contains(item), item_hit(item, r, t_min, t_max, box_hit, leaf_hit, Some(h))]
                items.contains(item) && item_hit(
                    item,
                    r,
                    t_min,
                    t_max,
                    box_hit,
                    leaf_hit,
                    Some(h),
                ) implies !h.root.lt_spec(best.root) by {
                assert(first.contains(item) || second.contains(item));
                item_hits_are_rooted(item, r, t_min, t_max, box_hit, leaf_hit, h);
            }
        },
    }
}

/// Two nearest hits among the same items agree: either both are nothing,
/// or both are hits at numerically the same root. So hierarchies over the
/// same items, built with whatever axes, report hits equally near.
pub proof fn nearest_hits_agree<B, L>(
    one: Option<HitRecord>,
    other: Option<HitRecord>,
    first_items: Seq<BvhItem>,
    second_items: Seq<BvhItem>,
    r: &Ray,
    t_min: Scalar,
    t_max: Scalar,
    box_hit: &B,
    leaf_hit: &L,
) where
    B: Fn(&Aabb, &Ray, Scalar, Scalar) -> bool,
    L: Fn(&Geometry, &Ray, Scalar, Scalar) -> Option<HitRecord>,

    requires
        first_items.to_multiset() == second_items.to_multiset(),
        leaf_hits_satisfy(leaf_hit, rooted()),
        nearest_among(one, first_items, r, t_min, t_max, box_hit, leaf_hit),
        nearest_among(other, second_items, r, t_min, t_max, box_hit, leaf_hit),
    ensures
        one is None <==> other is None,
        one matches Some(a) ==> other matches Some(b) && a.root.rank() == b.root.rank(),
{
    assert forall|item: BvhItem| first_items.contains(item) == second_items.contains(item) by {
        vstd::seq_lib::to_multiset_contains(first_items, item);
        vstd::seq_lib::to_multiset_contains(second_items, item);
    }
    if one is Some {
        let a = choose|item: BvhItem|
            #![trigger first_items.contains(item)]
            first_items.contains(item) && item_hit(item, r, t_min, t_max, box_hit, leaf_hit, one);
        assert(second_items.contains(a));
        item_hits_are_rooted(a, r, t_min, t_max, box_hit, leaf_hit, one.unwrap());
    }
    if other is Some {
        let b = choose|item: BvhItem|
            #![trigger second_items.contains(item)]
            second_items.contains(item) && item_hit(
                item,
                r,
                t_min,
                t_max,
                box_hit,
                leaf_hit,
                other,
            );
        assert(first_items.contains(b));
        item_hits_are_rooted(b, r, t_min, t_max, box_hit, leaf_hit, other.unwrap());
    }
}

/// The item that a shape gives: the shape with a box that it may report.
pub open spec fn item_of<E>(shape: Arc<Geometry>, t0: Scalar, t1: Scalar, leaf_box: &E) -> BvhItem where
    E: Fn(&Geometry, Scalar, Scalar) -> Option<Aabb>,
 {
    BvhItem {
        object: shape,
        bounding_box: choose|b: Option<Aabb>| shape.box_outcome(t0, t1, leaf_box, b),
    }
}

/// With a measure of leaves that answers the same question the same way
/// every time, the items that [`BvhNode::from_list`] builds over are
/// determined by the shapes: each shape gives its item.
pub proof fn items_are_determined<E>(
    list: Seq<Arc<Geometry>>,
    t0: Scalar,
    t1: Scalar,
    leaf_box: &E,
    items: Seq<BvhItem>,
) where E: Fn(&Geometry, Scalar, Scalar) -> Option<Aabb>
    requires
        measure_is_a_function(leaf_box),
        itemized(list, t0, t1, leaf_box, items),
    ensures
        items == list.map_values(|shape: Arc<Geometry>| item_of(shape, t0, t1, leaf_box)),
{
    let mapped = list.map_values(|shape: Arc<Geometry>| item_of(shape, t0, t1, leaf_box));
    assert forall|i: int| 0 <= i < items.len() implies items[i] == mapped[i] by {
        let item = items[i];
        assert(item.object == list[i]);
        assert(list[i].box_outcome(t0, t1, leaf_box, item.bounding_box));
        box_is_determined(
            &*list[i],
            t0,
            t1,
            leaf_box,
            item.bounding_box,
            item_of(list[i], t0, t1, leaf_box).bounding_box,
        );
    }
    assert(items =~= mapped);
}

/// What is made of every member of a list, one by one, does not depend on
/// the order of the list, up to order.
pub proof fn map_keeps_permutations<A, B>(a: Seq<A>, b: Seq<A>, f: spec_fn(A) -> B)
    requires
        a.to_multiset() == b.to_multiset(),
    ensures
        a.map_values(f).to_multiset() == b.map_values(f).to_multiset(),
    decreases a.len(),
{
    broadcast use vstd::multiset::group_multiset_axioms;

    vstd::seq_lib::to_multiset_len(a);
    vstd::seq_lib::to_multiset_len(b);
    if a.len() == 0 {
        assert(a.map_values(f) =~= b.map_values(f));
    } else {
        let x = a.last();
        assert(a.contains(x));
        vstd::seq_lib::to_multiset_contains(a, x);
        vstd::seq_lib::to_multiset_contains(b, x);
        let i = choose|i: int| 0 <= i < b.len() && b[i] == x;
        let a1 = a.drop_last();
        let b1 = b.remove(i);
        assert(a1 =~= a.remove(a.len() - 1));
        vstd::seq_lib::to_multiset_remove(a, a.len() - 1);
        vstd::seq_lib::to_multiset_remove(b, i);
        map_keeps_permutations(a1, b1, f);
        let ma = a.map_values(f);
        let mb = b.map_values(f);
        assert(ma =~= a1.map_values(f).push(f(x)));
        vstd::seq_lib::to_multiset_build(a1.map_values(f), f(x));
        assert(mb.remove(i) =~= b1.map_values(f));
        vstd::seq_lib::to_multiset_remove(mb, i);
        assert(mb[i] == f(x));
        assert(mb.contains(mb[i]));
        vstd::seq_lib::to_multiset_contains(mb, f(x));
        assert(mb.to_multiset() =~= mb.to_multiset().remove(f(x)).insert(f(x)));
    }
}

/// The same shapes in another order give the same items in another order,
/// where the measure of leaves answers the same question the same way
/// every time. So hierarchies built over two orders of one list of shapes
/// have the same box (see [`hierarchies_share_their_box`]) and report hits
/// equally near (see [`nearest_hits_agree`]).
pub proof fn permuted_shapes_give_permuted_items<E>(
    first: Seq<Arc<Geometry>>,
    second: Seq<Arc<Geometry>>,
    t0: Scalar,
    t1: Scalar,
    leaf_box: &E,
    first_items: Seq<BvhItem>,
    second_items: Seq<BvhItem>,
) where E: Fn(&Geometry, Scalar, Scalar) -> Option<Aabb>
    requires
        measure_is_a_function(leaf_box),
        first.to_multiset() == second.to_multiset(),
        itemized(first, t0, t1, leaf_box, first_items),
        itemized(second, t0, t1, leaf_box, second_items),
    ensures
        first_items.to_multiset() == second_items.to_multiset(),
{
    let f = |shape: Arc<Geometry>| item_of(shape, t0, t1, leaf_box);
    items_are_determined(first, t0, t1, leaf_box, first_items);
    items_are_determined(second, t0, t1, leaf_box, second_items);
    assert(first_items == first.map_values(f));
    assert(second_items == second.map_values(f));
    map_keeps_permutations(first, second, f);
}

} // verus!
