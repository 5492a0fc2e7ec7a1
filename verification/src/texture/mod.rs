//! Textures: the colour of a surface at a point.

pub mod checker;
pub mod image;
pub mod noise;
pub mod perlin;
pub mod solid;

use crate::texture::checker::Checker;
use crate::texture::image::Image;
use crate::texture::noise::Noise;
use crate::texture::solid::Solid;
use vstd::prelude::*;

verus! {

/// Every kind of texture a scene can hold.
pub enum Textures {
    Checker(Checker),
    Image(Image),
    Noise(Noise),
    Solid(Solid),
}

impl Textures {
    /// Whether every texture this one refers to is one of the first
    /// `textures` textures. Only a checker refers to other textures.
    pub open spec fn refers_below(&self, textures: int) -> bool {
        self matches Textures::Checker(c) ==> c.odd < textures && c.even < textures
    }

    /// See [`refers_below`](Self::refers_below).
    pub fn refers_to_textures_below(&self, textures: usize) -> (ok: bool)
        ensures
            ok == self.refers_below(textures as int),
    {
        match self {
            Textures::Checker(c) => c.odd < textures && c.even < textures,
            _ => true,
        }
    }
}

} // verus!
