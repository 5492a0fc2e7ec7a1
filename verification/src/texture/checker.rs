//! A chequered pattern in space.

use crate::scalar::Scalar;
use vstd::prelude::*;

verus! {

/// Two textures that alternate in cubes of space.
#[derive(Clone, Copy, Debug, PartialEq, Eq, Structural)]
pub struct Checker {
    pub odd: usize,
    pub even: usize,
    pub scale: Scalar,
}

impl Checker {
    /// The pattern of the two textures at the given scale.
    pub fn new(odd: usize, even: usize, scale: Scalar) -> (c: Checker)
        ensures
            c == (Checker { odd, even, scale }),
    {
        Checker { odd, even, scale }
    }

    /// The texture that colours a point. `sines` is the product of the
    /// sines of the point's three scaled coordinates: where it is negative
    /// the odd texture colours the point, otherwise the even one.
    pub fn select(&self, sines: Scalar) -> (index: usize)
        ensures
            index == if sines.lt_spec(Scalar::zero_spec()) {
                self.odd
            } else {
                self.even
            },
    {
        if sines.lt(Scalar::zero()) {
            self.odd
        } else {
            self.even
        }
    }
}

} // verus!
