//! The camera, as the scene holds it.

use crate::scalar::Scalar;
use crate::vec3::Vec3;
use vstd::prelude::*;

verus! {

/// The bit pattern of 1.0.
pub const ONE_BITS: u32 = 0x3f80_0000;

/// The bit pattern of 20.0, the usual vertical field of view in degrees.
pub const USUAL_VFOV_BITS: u32 = 0x41a0_0000;

/// The bit pattern of sixteen ninths, the usual aspect ratio.
pub const USUAL_ASPECT_RATIO_BITS: u32 = 0x3fe3_8e39;

/// How a camera is described: where it stands, what it looks at, and its
/// lens.
#[derive(Clone, Copy, Debug, PartialEq, Eq, Structural)]
pub struct CamerBuilder {
    pub look_from: Vec3,
    pub look_at: Vec3,
    pub vup: Vec3,
    /// The vertical field of view, in degrees.
    pub vfov: Scalar,
    pub aspect_ratio: Scalar,
    pub aperture: Scalar,
    /// The distance at which the picture is sharp, if it is set.
    pub focus_dist: Option<Scalar>,
    pub time0: Scalar,
    pub time1: Scalar,
}

impl CamerBuilder {
    /// The description with the given values.
    pub fn new(
        look_from: Vec3,
        look_at: Vec3,
        vup: Vec3,
        vfov: Scalar,
        aspect_ratio: Scalar,
        aperture: Scalar,
        focus_dist: Option<Scalar>,
        time0: Scalar,
        time1: Scalar,
    ) -> (b: CamerBuilder)
        ensures
            b == (CamerBuilder {
                look_from,
                look_at,
                vup,
                vfov,
                aspect_ratio,
                aperture,
                focus_dist,
                time0,
                time1,
            }),
    {
        CamerBuilder {
            look_from,
            look_at,
            vup,
            vfov,
            aspect_ratio,
            aperture,
            focus_dist,
            time0,
            time1,
        }
    }

    /// The description of a camera at `look_from` that looks at `look_at`,
    /// with the usual values for everything else: up is the positive y
    /// axis, the field of view is 20 degrees, the aspect ratio sixteen to
    /// nine, the aperture one, the focus is left to the distance between
    /// the two points, and the shutter is open from time zero to time one.
    pub fn with_defaults(look_from: Vec3, look_at: Vec3) -> (b: CamerBuilder)
        ensures
            b == (CamerBuilder {
                look_from,
                look_at,
                vup: Vec3 {
                    x: Scalar::zero_spec(),
                    y: Scalar { bits: ONE_BITS },
                    z: Scalar::zero_spec(),
                },
                vfov: Scalar { bits: USUAL_VFOV_BITS },
                aspect_ratio: Scalar { bits: USUAL_ASPECT_RATIO_BITS },
                aperture: Scalar { bits: ONE_BITS },
                focus_dist: None,
                time0: Scalar::zero_spec(),
                time1: Scalar { bits: ONE_BITS },
            }),
    {
        CamerBuilder {
            look_from,
            look_at,
            vup: Vec3::new(Scalar::zero(), Scalar::from_bits(ONE_BITS), Scalar::zero()),
            vfov: Scalar::from_bits(USUAL_VFOV_BITS),
            aspect_ratio: Scalar::from_bits(USUAL_ASPECT_RATIO_BITS),
            aperture: Scalar::from_bits(ONE_BITS),
            focus_dist: None,
            time0: Scalar::zero(),
            time1: Scalar::from_bits(ONE_BITS),
        }
    }

    /// The distance at which the picture is sharp: the one that is set,
    /// and else `distance`, the distance between where the camera stands
    /// and what it looks at.
    pub fn focus_distance(&self, distance: Scalar) -> (d: Scalar)
        ensures
            d == match self.focus_dist {
                Some(v) => v,
                None => distance,
            },
    {
        if let Some(v) = self.focus_dist {
            v
        } else {
            distance
        }
    }
}

/// A camera ready to cast rays: its place, the plane it projects onto, its
/// axes, its lens and its shutter interval.
#[derive(Clone, Copy, Debug, PartialEq, Eq, Structural)]
pub struct Camera {
    pub horizontal: Vec3,
    pub origin: Vec3,
    pub lower_left_corner: Vec3,
    pub vertical: Vec3,
    pub u: Vec3,
    pub v: Vec3,
    pub w: Vec3,
    pub lens_radius: Scalar,
    pub time0: Scalar,
    pub time1: Scalar,
}

} // verus!
