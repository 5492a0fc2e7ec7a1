//! Surfaces that shine.

use crate::material::ScatterRecord;
use vstd::prelude::*;

verus! {

/// A light: it gives off the colour of its texture and sends no ray on.
#[derive(Clone, Copy, Debug, PartialEq, Eq, Structural)]
pub struct DiffuseLight {
    pub texture_index: usize,
}

impl DiffuseLight {
    /// The light that shines with the given texture.
    pub fn new(texture_index: usize) -> (l: DiffuseLight)
        ensures
            l.texture_index == texture_index,
    {
        DiffuseLight { texture_index }
    }

    /// A light sends no ray on.
    pub fn scatter(&self) -> (s: Option<ScatterRecord>)
        ensures
            s is None,
    {
        None
    }

    /// A light always gives off its texture.
    pub fn emitted(&self) -> (e: Option<usize>)
        ensures
            e == Some(self.texture_index),
    {
        Some(self.texture_index)
    }
}

} // verus!
