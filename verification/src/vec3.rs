//! Triples of scalars: points, directions and colours.

use crate::random::random_below;
use crate::scalar::Scalar;
use rand::rngs::StdRng;
use vstd::prelude::*;

verus! {

/// One of the three coordinate axes.
#[derive(Clone, Copy, Debug, PartialEq, Eq, Structural)]
pub enum Axis {
    X,
    Y,
    Z,
}

impl Axis {
    /// The axis after this one, in the cycle X, Y, Z, X.
    pub fn next(&self) -> (r: Axis)
        ensures
            r == self.next_spec(),
    {
        match self {
            Axis::X => Axis::Y,
            Axis::Y => Axis::Z,
            Axis::Z => Axis::X,
        }
    }

    /// See [`next`](Self::next).
    pub open spec fn next_spec(&self) -> Axis {
        match self {
            Axis::X => Axis::Y,
            Axis::Y => Axis::Z,
            Axis::Z => Axis::X,
        }
    }

    /// An axis picked at random. Whatever the generator yields, the result
    /// is one of the three axes; which one is the generator's choice.
    pub fn random(rng: &mut StdRng) -> (r: Axis) {
        Axis::from_index(random_below(rng, 3))
    }

    /// The axis with the given number: 0 is X, 1 is Y, 2 is Z, and anything
    /// else is X again.
    pub fn from_index(index: usize) -> (r: Axis)
        ensures
            r == Axis::from_index_spec(index as int),
    {
        if index == 1 {
            Axis::Y
        } else if index == 2 {
            Axis::Z
        } else {
            Axis::X
        }
    }

    /// See [`from_index`](Self::from_index).
    pub open spec fn from_index_spec(index: int) -> Axis {
        if index == 1 {
            Axis::Y
        } else if index == 2 {
            Axis::Z
        } else {
            Axis::X
        }
    }
}

/// Going round the cycle of axes three times comes back to the start, and
/// no single step stands still.
pub proof fn axis_cycle(a: Axis)
    ensures
        a.next_spec().next_spec().next_spec() == a,
        a.next_spec() != a,
{
}

/// Three scalars.
#[derive(Clone, Copy, Debug, PartialEq, Eq, Structural)]
pub struct Vec3 {
    pub x: Scalar,
    pub y: Scalar,
    pub z: Scalar,
}

impl Vec3 {
    /// The triple of the given components.
    pub fn new(x: Scalar, y: Scalar, z: Scalar) -> (v: Vec3)
        ensures
            v == (Vec3 { x, y, z }),
    {
        Vec3 { x, y, z }
    }

    /// The triple whose components all equal `s`.
    pub fn splat(s: Scalar) -> (v: Vec3)
        ensures
            v == (Vec3 { x: s, y: s, z: s }),
    {
        Vec3 { x: s, y: s, z: s }
    }

    /// The triple of three positive zeros.
    pub fn zero() -> (v: Vec3)
        ensures
            v == Vec3::zero_spec(),
    {
        Vec3::splat(Scalar::zero())
    }

    /// See [`zero`](Self::zero).
    pub open spec fn zero_spec() -> Vec3 {
        Vec3 { x: Scalar::zero_spec(), y: Scalar::zero_spec(), z: Scalar::zero_spec() }
    }

    /// The component along `axis`.
    pub open spec fn component(self, axis: Axis) -> Scalar {
        match axis {
            Axis::X => self.x,
            Axis::Y => self.y,
            Axis::Z => self.z,
        }
    }

    /// The component along `axis`.
    pub fn get(&self, axis: Axis) -> (s: Scalar)
        ensures
            s == self.component(axis),
    {
        match axis {
            Axis::X => self.x,
            Axis::Y => self.y,
            Axis::Z => self.z,
        }
    }

    /// Component by component, the lesser.
    pub open spec fn min_spec(self, other: Vec3) -> Vec3 {
        Vec3 {
            x: self.x.min_spec(other.x),
            y: self.y.min_spec(other.y),
            z: self.z.min_spec(other.z),
        }
    }

    /// Component by component, the greater.
    pub open spec fn max_spec(self, other: Vec3) -> Vec3 {
        Vec3 {
            x: self.x.max_spec(other.x),
            y: self.y.max_spec(other.y),
            z: self.z.max_spec(other.z),
        }
    }

    /// Every component with its sign flipped.
    pub open spec fn neg_spec(self) -> Vec3 {
        Vec3 { x: self.x.neg_spec(), y: self.y.neg_spec(), z: self.z.neg_spec() }
    }

    /// Whether every component lies within `tolerance` of zero.
    pub open spec fn near_zero_spec(self, tolerance: Scalar) -> bool {
        &&& self.x.abs_spec().le_spec(tolerance)
        &&& self.y.abs_spec().le_spec(tolerance)
        &&& self.z.abs_spec().le_spec(tolerance)
    }

    /// Component by component, the lesser.
    pub fn min(self, other: Vec3) -> (v: Vec3)
        ensures
            v == self.min_spec(other),
    {
        Vec3 { x: self.x.min(other.x), y: self.y.min(other.y), z: self.z.min(other.z) }
    }

    /// Component by component, the greater.
    pub fn max(self, other: Vec3) -> (v: Vec3)
        ensures
            v == self.max_spec(other),
    {
        Vec3 { x: self.x.max(other.x), y: self.y.max(other.y), z: self.z.max(other.z) }
    }

    /// Every component with its sign flipped.
    pub fn neg(self) -> (v: Vec3)
        ensures
            v == self.neg_spec(),
    {
        Vec3 { x: self.x.neg(), y: self.y.neg(), z: self.z.neg() }
    }

    /// Every component held between the matching components of `low` and
    /// `high`.
    pub fn clamp(self, low: Vec3, high: Vec3) -> (v: Vec3)
        ensures
            v == self.max_spec(low).min_spec(high),
    {
        self.max(low).min(high)
    }

    /// Whether every component lies within `tolerance` of zero. A NaN
    /// component, or a NaN tolerance, makes this false.
    pub fn near_zero(self, tolerance: Scalar) -> (r: bool)
        ensures
            r == self.near_zero_spec(tolerance),
    {
        self.x.abs().le(tolerance) && self.y.abs().le(tolerance) && self.z.abs().le(tolerance)
    }
}

/// The bit pattern of 1.0.
pub const ONE_BITS: u32 = 0x3f80_0000;

/// Whether a random point is kept as a point of the unit ball (or, in the
/// plane, of the unit disk): it is where its squared length is numerically
/// less than one. A point that is not kept is drawn again.
pub fn accepts_in_unit_ball(length_squared: Scalar) -> (ok: bool)
    ensures
        ok == length_squared.lt_spec(Scalar { bits: ONE_BITS }),
{
    length_squared.lt(Scalar::from_bits(ONE_BITS))
}

/// Of a random direction, the one that lies in the hemisphere around a
/// given vector: the direction itself where `facing`, its dot product with
/// that vector, is positive, and the opposite direction otherwise.
pub fn random_in_hemisphere(in_unit_sphere: Vec3, facing: Scalar) -> (v: Vec3)
    ensures
        v == if Scalar::zero_spec().lt_spec(facing) {
            in_unit_sphere
        } else {
            in_unit_sphere.neg_spec()
        },
{
    if facing.gt(Scalar::zero()) {
        in_unit_sphere
    } else {
        in_unit_sphere.neg()
    }
}

} // verus!
