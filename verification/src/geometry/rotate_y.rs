//! Shapes turned about the vertical axis.

use crate::geometry::aabb::Aabb;
use crate::geometry::Geometry;
use crate::scalar::Scalar;
use crate::vec3::Vec3;
use vstd::prelude::*;

verus! {

/// A shape turned about the y axis by an angle, held as its sine and
/// cosine, with the box around the turned shape.
pub struct RotateY {
    pub object: Box<Geometry>,
    pub sin_theta: Scalar,
    pub cos_theta: Scalar,
    pub has_box: bool,
    pub bbox: Aabb,
}

impl RotateY {
    /// The box in which nothing lies: it starts at positive infinity and
    /// ends at negative infinity on every axis.
    pub open spec fn nothing() -> Aabb {
        Aabb {
            min: Vec3 {
                x: Scalar::infinity_spec(),
                y: Scalar::infinity_spec(),
                z: Scalar::infinity_spec(),
            },
            max: Vec3 {
                x: Scalar::infinity_spec().neg_spec(),
                y: Scalar::infinity_spec().neg_spec(),
                z: Scalar::infinity_spec().neg_spec(),
            },
        }
    }

    /// A box widened to hold one more point.
    pub open spec fn widen(b: Aabb, point: Vec3) -> Aabb {
        Aabb { min: b.min.min_spec(point), max: b.max.max_spec(point) }
    }

    /// The smallest box around the given points: on every axis it runs from
    /// the least to the greatest coordinate among them.
    pub open spec fn around(points: Seq<Vec3>) -> Aabb {
        points.fold_left(RotateY::nothing(), |b: Aabb, point: Vec3| RotateY::widen(b, point))
    }

    /// `object`, turned about the y axis by the angle whose sine and cosine
    /// are given. `corners` are the eight corners of the shape's own box
    /// after the turn, or nothing if the shape reports no box. With corners
    /// the turned shape reports the box around them; without, it reports no
    /// box and holds the box at the origin in its place.
    pub fn new(
        object: Box<Geometry>,
        sin_theta: Scalar,
        cos_theta: Scalar,
        corners: Option<[Vec3; 8]>,
    ) -> (rotated: RotateY)
        ensures
            rotated.object == object,
            rotated.sin_theta == sin_theta,
            rotated.cos_theta == cos_theta,
            rotated.has_box == (corners is Some),
            rotated.bbox == match corners {
                Some(points) => RotateY::around(points@),
                None => Aabb { min: Vec3::zero_spec(), max: Vec3::zero_spec() },
            },
    {
        match corners {
            Some(points) => {
                let mut min = Vec3::splat(Scalar::infinity());
                let mut max = Vec3::splat(Scalar::neg_infinity());
                let mut i: usize = 0;
                while i < 8
                    invariant
                        i <= 8,
                        points@.len() == 8,
                        (Aabb { min, max }) == RotateY::around(points@.subrange(0, i as int)),
                    decreases 8 - i,
                {
                    let tester = points[i];
                    proof {
                        let done = points@.subrange(0, i as int);
                        let next = points@.subrange(0, i + 1);
                        assert(next.drop_last() == done);
                        assert(next.last() == tester);
                    }
                    min = min.min(tester);
                    max = max.max(tester);
                    i = i + 1;
                }
                proof {
                    assert(points@.subrange(0, 8) == points@);
                }
                RotateY { object, sin_theta, cos_theta, has_box: true, bbox: Aabb::new(min, max) }
            },
            None => RotateY {
                object,
                sin_theta,
                cos_theta,
                has_box: false,
                bbox: Aabb::new(Vec3::zero(), Vec3::zero()),
            },
        }
    }

    /// The box around the turned shape, if the shape has one.
    pub fn bounding_box(&self) -> (b: Option<Aabb>)
        ensures
            b == if self.has_box {
                Some(self.bbox)
            } else {
                None
            },
    {
        if self.has_box {
            Some(self.bbox)
        } else {
            None
        }
    }
}

} // verus!
