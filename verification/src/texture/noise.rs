//! Marble-like noise.

use crate::scalar::Scalar;
use crate::texture::perlin::Perlin;
use vstd::prelude::*;

verus! {

/// The bit pattern of 256.0, the usual scale of a noise texture.
pub const USUAL_SCALE_BITS: u32 = 0x4380_0000;

/// The scale of a noise texture before its tables are drawn.
#[derive(Clone, Copy, Debug, PartialEq, Eq, Structural)]
pub struct NoiseBuilder {
    pub scale: Scalar,
}

impl NoiseBuilder {
    /// The description of a noise texture of the usual scale, 256.
    pub fn with_defaults() -> (b: NoiseBuilder)
        ensures
            b.scale == (Scalar { bits: USUAL_SCALE_BITS }),
    {
        NoiseBuilder { scale: Scalar::from_bits(USUAL_SCALE_BITS) }
    }

    /// The description of a noise texture of the given scale.
    pub fn new(scale: Scalar) -> (b: NoiseBuilder)
        ensures
            b.scale == scale,
    {
        NoiseBuilder { scale }
    }
}

/// A noise texture: a scale and the lattice it reads.
pub struct Noise {
    pub scale: Scalar,
    pub noise: Perlin,
}

impl Noise {
    /// The noise texture of the given scale over the given lattice.
    pub fn new(scale: Scalar, noise: Perlin) -> (n: Noise)
        ensures
            n.scale == scale,
            n.noise == noise,
    {
        Noise { scale, noise }
    }
}

} // verus!
