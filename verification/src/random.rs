//! The random source.
//!
//! Every random choice the library makes is drawn from a generator that the
//! caller hands in, so that a caller who seeds the generator gets the same
//! choices again.

use rand::rngs::StdRng;
use rand::Rng;
use vstd::prelude::*;

verus! {

/// The generator of the `rand` crate. The library passes it through and
/// never looks inside.
#[verifier::external_type_specification]
#[verifier::external_body]
pub struct ExStdRng(StdRng);

/// Draws an index below `bound` with `rand::Rng::gen_range` on the range
/// from 0 up to, not including, `bound`. The range must not be empty, since
/// `gen_range` panics on an empty one; the draw then lies in the range.
/// Nothing is claimed about which index comes out.
#[verifier::external_body]
pub(crate) fn random_below(rng: &mut StdRng, bound: usize) -> (index: usize)
    requires
        bound > 0,
    ensures
        index < bound,
{
    rng.gen_range(0..bound)
}

} // verus!
