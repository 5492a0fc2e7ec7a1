//! The lattice behind the noise texture: random vectors, and three
//! shuffled tables that pick one of them for every lattice point.

use crate::random::random_below;
use crate::vec3::Vec3;
use rand::rngs::StdRng;
use vstd::prelude::*;

verus! {

/// The number of lattice vectors, and the length of every table.
pub const POINT_COUNT: usize = 256;

/// The lattice.
pub struct Perlin {
    pub ran: Vec<Vec3>,
    pub perm_x: Vec<i32>,
    pub perm_y: Vec<i32>,
    pub perm_z: Vec<i32>,
}

/// The table that holds 0, 1, 2, ... in order.
pub open spec fn identity_table() -> Seq<i32> {
    Seq::new(POINT_COUNT as nat, |i: int| i as i32)
}

/// Whether a table holds every number from 0 up to, not including, the
/// number of lattice vectors exactly once.
pub open spec fn is_permutation(table: Seq<i32>) -> bool {
    table.to_multiset() == identity_table().to_multiset()
}

/// A shuffled table has the length of the lattice, and each entry points
/// at a lattice vector.
pub proof fn permutation_entries(table: Seq<i32>, i: int)
    requires
        is_permutation(table),
        0 <= i < POINT_COUNT,
    ensures
        table.len() == POINT_COUNT,
        0 <= table[i] < POINT_COUNT,
{
    vstd::seq_lib::to_multiset_len(table);
    vstd::seq_lib::to_multiset_len(identity_table());
    let value = table[i];
    assert(table.contains(value));
    vstd::seq_lib::to_multiset_contains(table, value);
    vstd::seq_lib::to_multiset_contains(identity_table(), value);
    assert(identity_table().contains(value));
    let k = choose|k: int| 0 <= k < identity_table().len() && identity_table()[k] == value;
    assert(value == k as i32);
}

/// The lattice position below a coordinate, folded into the tables'
/// range: the low eight bits of the sum.
pub open spec fn fold(coordinate: i32, step: i32) -> int {
    (coordinate.wrapping_add(step) & 255) as int
}

impl Perlin {
    /// Whether the lattice has all its vectors and its three tables are
    /// shuffles of 0, 1, 2, ...
    pub open spec fn well_formed(&self) -> bool {
        &&& self.ran.len() == POINT_COUNT
        &&& is_permutation(self.perm_x@)
        &&& is_permutation(self.perm_y@)
        &&& is_permutation(self.perm_z@)
    }

    /// The lattice of the given vectors, with three freshly shuffled
    /// tables. There must be one vector for every table entry.
    pub fn new(ran: Vec<Vec3>, rng: &mut StdRng) -> (lattice: Perlin)
        requires
            ran.len() == POINT_COUNT,
        ensures
            lattice.ran == ran,
            lattice.well_formed(),
    {
        let perm_x = Perlin::perlin_generate_perm(rng);
        let perm_y = Perlin::perlin_generate_perm(rng);
        let perm_z = Perlin::perlin_generate_perm(rng);
        Perlin { ran, perm_x, perm_y, perm_z }
    }

    /// A table that holds 0, 1, 2, ... in an order drawn from the
    /// generator.
    pub fn perlin_generate_perm(rng: &mut StdRng) -> (table: Vec<i32>)
        ensures
            is_permutation(table@),
            table.len() == POINT_COUNT,
    {
        let mut p: Vec<i32> = Vec::with_capacity(POINT_COUNT);
        let mut i: i32 = 0;
        while i < 256
            invariant
                0 <= i <= 256,
                p.len() == i,
                forall|k: int| 0 <= k < i ==> p@[k] == k as i32,
            decreases 256 - i,
        {
            p.push(i);
            i = i + 1;
        }
        assert(p@ =~= identity_table());
        Perlin::permute(&mut p, rng);
        p
    }

    /// Shuffles a table in place: from the last entry down to the second,
    /// each entry changes places with one drawn from those up to and
    /// including itself (see [`shuffled`]). The table holds the same numbers
    /// afterwards, each as often as before; the draws are the generator's.
    pub fn permute(p: &mut Vec<i32>, rng: &mut StdRng)
        requires
            old(p).len() == POINT_COUNT,
        ensures
            exists|targets: Seq<usize>|
                draws_in_range(targets) && final(p)@ == #[trigger] shuffled(
                    old(p)@,
                    targets,
                    (POINT_COUNT - 1) as nat,
                ),
            final(p)@.to_multiset() == old(p)@.to_multiset(),
            final(p).len() == POINT_COUNT,
    {
        let mut targets: Vec<usize> = Vec::with_capacity(POINT_COUNT - 1);
        let mut i: usize = POINT_COUNT - 1;
        while i >= 1
            invariant
                i < POINT_COUNT,
                targets.len() == POINT_COUNT - 1 - i,
                forall|k: int|
                    0 <= k < targets.len() ==> (#[trigger] targets@[k]) <= POINT_COUNT - 1 - k,
            decreases i,
        {
            let target = random_below(rng, i + 1);
            targets.push(target);
            i = i - 1;
        }
        Perlin::permute_with(p, &targets);
        proof {
            shuffle_keeps_entries(old(p)@, targets@, (POINT_COUNT - 1) as nat);
        }
    }

    /// Shuffles a table in place with the given draws: the first draw is
    /// the place with which the last entry changes places, the second that
    /// of the entry before it, and so on down to the second entry (see
    /// [`shuffled`]).
    pub fn permute_with(p: &mut Vec<i32>, targets: &Vec<usize>)
        requires
            old(p).len() == POINT_COUNT,
            draws_in_range(targets@),
        ensures
            final(p)@ == shuffled(old(p)@, targets@, (POINT_COUNT - 1) as nat),
            final(p).len() == POINT_COUNT,
    {
        let mut done: usize = 0;
        while done < POINT_COUNT - 1
            invariant
                done <= POINT_COUNT - 1,
                p.len() == POINT_COUNT,
                draws_in_range(targets@),
                p@ == shuffled(old(p)@, targets@, done as nat),
            decreases POINT_COUNT - 1 - done,
        {
            let i: usize = POINT_COUNT - 1 - done;
            let target = targets[done];
            let tmp = p[i];
            let other = p[target];
            p.set(i, other);
            p.set(target, tmp);
            done = done + 1;
        }
    }

    /// The number of the lattice vector at a lattice point: the three
    /// tables' entries for the point's folded coordinates, combined bit by
    /// bit with exclusive or.
    pub open spec fn vector_index(&self, i: i32, j: i32, k: i32) -> int {
        (self.perm_x@[fold(i, 0)] ^ self.perm_y@[fold(j, 0)] ^ self.perm_z@[fold(k, 0)]) as int
    }

    /// The lattice vector at the lattice point (`i`, `j`, `k`).
    pub fn vector_at(&self, i: i32, j: i32, k: i32) -> (v: Vec3)
        requires
            self.well_formed(),
        ensures
            0 <= self.vector_index(i, j, k) < POINT_COUNT,
            v == self.ran@[self.vector_index(i, j, k)],
    {
        let a: i32 = i & 255;
        let b: i32 = j & 255;
        let c: i32 = k & 255;
        assert(0 <= a < 256 && 0 <= b < 256 && 0 <= c < 256) by (bit_vector)
            requires
                a == i & 255,
                b == j & 255,
                c == k & 255,
        ;
        assert(i.wrapping_add(0) == i && j.wrapping_add(0) == j && k.wrapping_add(0) == k);
        proof {
            permutation_entries(self.perm_x@, a as int);
            permutation_entries(self.perm_y@, b as int);
            permutation_entries(self.perm_z@, c as int);
        }
        let x: i32 = self.perm_x[a as usize];
        let y: i32 = self.perm_y[b as usize];
        let z: i32 = self.perm_z[c as usize];
        let index: i32 = x ^ y ^ z;
        assert(0 <= index < 256) by (bit_vector)
            requires
                index == x ^ y ^ z,
                0 <= x < 256,
                0 <= y < 256,
                0 <= z < 256,
        ;
        self.ran[index as usize]
    }

    /// The lattice vectors at the eight corners of the lattice cell whose
    /// lowest corner is (`i`, `j`, `k`): the entry at `[di][dj][dk]` is the
    /// vector at (`i + di`, `j + dj`, `k + dk`), where a coordinate that
    /// runs over the largest integer starts again at the smallest.
    pub fn corners(&self, i: i32, j: i32, k: i32) -> (c: [[[Vec3; 2]; 2]; 2])
        requires
            self.well_formed(),
        ensures
            forall|di: int, dj: int, dk: int|
                0 <= di < 2 && 0 <= dj < 2 && 0 <= dk < 2 ==> (#[trigger] c@[di]@[dj]@[dk])
                    == self.ran@[self.vector_index(
                    i.wrapping_add(di as i32),
                    j.wrapping_add(dj as i32),
                    k.wrapping_add(dk as i32),
                )],
    {
        let i1 = i.wrapping_add(1);
        let j1 = j.wrapping_add(1);
        let k1 = k.wrapping_add(1);
        assert(i.wrapping_add(0) == i && j.wrapping_add(0) == j && k.wrapping_add(0) == k);
        [
            [
                [self.vector_at(i, j, k), self.vector_at(i, j, k1)],
                [self.vector_at(i, j1, k), self.vector_at(i, j1, k1)],
            ],
            [
                [self.vector_at(i1, j, k), self.vector_at(i1, j, k1)],
                [self.vector_at(i1, j1, k), self.vector_at(i1, j1, k1)],
            ],
        ]
    }
}

/// The table with the entries at two places exchanged.
pub open spec fn exchanged(table: Seq<i32>, i: int, j: int) -> Seq<i32> {
    table.update(i, table[j]).update(j, table[i])
}

/// Whether `targets` can be the draws of one shuffle: one draw for every
/// entry from the last down to the second, each a place at or before the
/// entry it is drawn for.
pub open spec fn draws_in_range(targets: Seq<usize>) -> bool {
    &&& targets.len() == POINT_COUNT - 1
    &&& forall|k: int| 0 <= k < targets.len() ==> (#[trigger] targets[k]) <= POINT_COUNT - 1 - k
}

/// The table after the first `n` exchanges of a shuffle with the given
/// draws: the first exchange is that of the last entry with the place of
/// the first draw, the next that of the entry before it with the place of
/// the second draw, and so on.
pub open spec fn shuffled(table: Seq<i32>, targets: Seq<usize>, n: nat) -> Seq<i32>
    decreases n,
{
    if n == 0 {
        table
    } else {
        exchanged(
            shuffled(table, targets, (n - 1) as nat),
            POINT_COUNT - n,
            targets[n - 1] as int,
        )
    }
}

/// Exchanging two entries of a table changes neither its length nor how
/// often it holds which number.
pub proof fn exchange_keeps_entries(table: Seq<i32>, i: int, j: int)
    requires
        0 <= i < table.len(),
        0 <= j < table.len(),
    ensures
        exchanged(table, i, j).len() == table.len(),
        exchanged(table, i, j).to_multiset() == table.to_multiset(),
{
    broadcast use vstd::multiset::group_multiset_axioms;

    let tmp = table[i];
    let other = table[j];
    let mid = table.update(i, other);
    assert(mid[j] == other);
    assert(table.contains(table[j]));
    assert(table.contains(table[i]));
    vstd::seq_lib::to_multiset_contains(table, other);
    vstd::seq_lib::to_multiset_contains(table, tmp);
    vstd::seq_lib::to_multiset_update(table, i, other);
    vstd::seq_lib::to_multiset_update(mid, j, tmp);
    let m0 = table.to_multiset();
    let m1 = m0.insert(other);
    let m2 = m1.remove(tmp);
    let m3 = m2.insert(tmp);
    let m4 = m3.remove(other);
    assert(mid.to_multiset() == m2);
    assert(exchanged(table, i, j).to_multiset() == m4);
    assert forall|v: i32| m4.count(v) == m0.count(v) by {
        assert(m1.count(v) == if v == other { m0.count(v) + 1 } else { m0.count(v) });
        assert(m1.count(tmp) > 0);
        assert(m2.count(v) == if v == tmp { m1.count(v) - 1 } else { m1.count(v) as int });
        assert(m3.count(v) == if v == tmp { m2.count(v) + 1 } else { m2.count(v) });
        assert(m3.count(other) > 0);
        assert(m4.count(v) == if v == other { m3.count(v) - 1 } else { m3.count(v) as int });
    }
    assert(m4 =~= m0);
}

/// A shuffle changes neither the length of a table nor how often it holds
/// which number, whatever the draws.
pub proof fn shuffle_keeps_entries(table: Seq<i32>, targets: Seq<usize>, n: nat)
    requires
        table.len() == POINT_COUNT,
        draws_in_range(targets),
        n <= POINT_COUNT - 1,
    ensures
        shuffled(table, targets, n).len() == POINT_COUNT,
        shuffled(table, targets, n).to_multiset() == table.to_multiset(),
    decreases n,
{
    if n > 0 {
        shuffle_keeps_entries(table, targets, (n - 1) as nat);
        exchange_keeps_entries(
            shuffled(table, targets, (n - 1) as nat),
            POINT_COUNT - n,
            targets[n - 1] as int,
        );
    }
}

/// A shuffle in which every entry is drawn to stay in its place leaves the
/// table as it was.
pub proof fn shuffle_in_place(table: Seq<i32>, targets: Seq<usize>, n: nat)
    requires
        table.len() == POINT_COUNT,
        draws_in_range(targets),
        n <= POINT_COUNT - 1,
        forall|k: int| 0 <= k < targets.len() ==> (#[trigger] targets[k]) == POINT_COUNT - 1 - k,
    ensures
        shuffled(table, targets, n) == table,
    decreases n,
{
    if n > 0 {
        shuffle_in_place(table, targets, (n - 1) as nat);
        assert(exchanged(table, POINT_COUNT - n, targets[n - 1] as int) =~= table);
    }
}

} // verus!
