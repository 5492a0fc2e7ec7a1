//! Shapes moved to another place.

use crate::geometry::Geometry;
use crate::vec3::Vec3;
use vstd::prelude::*;

verus! {

/// A shape shifted by an offset.
pub struct Translate {
    pub object: Box<Geometry>,
    pub offset: Vec3,
}

impl Translate {
    /// `object`, moved by `offset`.
    pub fn new(object: Box<Geometry>, offset: Vec3) -> (t: Translate)
        ensures
            t.object == object,
            t.offset == offset,
    {
        Translate { object, offset }
    }
}

} // verus!
