//! Spheres.

use crate::scalar::Scalar;
use crate::vec3::Vec3;
use vstd::prelude::*;

verus! {

/// A sphere at rest.
#[derive(Clone, Copy, Debug, PartialEq, Eq, Structural)]
pub struct Sphere {
    pub center: Vec3,
    pub radius: Scalar,
    pub material_index: usize,
}

impl Sphere {
    /// The sphere of the given centre, radius and material.
    pub fn new(center: Vec3, radius: Scalar, material_index: usize) -> (s: Sphere)
        ensures
            s == (Sphere { center, radius, material_index }),
    {
        Sphere { center, radius, material_index }
    }

    /// Whether `root` lies in the window from `t_min` to `t_max`, ends
    /// included.
    pub open spec fn in_window(root: Scalar, t_min: Scalar, t_max: Scalar) -> bool {
        !(root.lt_spec(t_min) || t_max.lt_spec(root))
    }

    /// Which solution of the ray-sphere equation counts as the hit: none
    /// where the discriminant is negative; else the smaller solution, `near`,
    /// if it lies in the window; else the larger, `far`, if that does; else
    /// none.
    pub open spec fn select_root_spec(
        discriminant: Scalar,
        near: Scalar,
        far: Scalar,
        t_min: Scalar,
        t_max: Scalar,
    ) -> Option<Scalar> {
        if discriminant.lt_spec(Scalar::zero_spec()) {
            None
        } else if Sphere::in_window(near, t_min, t_max) {
            Some(near)
        } else if Sphere::in_window(far, t_min, t_max) {
            Some(far)
        } else {
            None
        }
    }

    /// See [`select_root_spec`](Self::select_root_spec).
    pub fn select_root(
        discriminant: Scalar,
        near: Scalar,
        far: Scalar,
        t_min: Scalar,
        t_max: Scalar,
    ) -> (root: Option<Scalar>)
        ensures
            root == Sphere::select_root_spec(discriminant, near, far, t_min, t_max),
    {
        if discriminant.lt(Scalar::zero()) {
            return None;
        }
        let mut root = near;
        if root.lt(t_min) || t_max.lt(root) {
            root = far;
            if root.lt(t_min) || t_max.lt(root) {
                return None;
            }
        }
        Some(root)
    }
}

/// Where the smaller solution lies in the window it is the hit, wherever
/// the larger one lies.
pub proof fn near_root_in_window_is_selected(
    discriminant: Scalar,
    near: Scalar,
    far: Scalar,
    t_min: Scalar,
    t_max: Scalar,
)
    requires
        !discriminant.lt_spec(Scalar::zero_spec()),
        Sphere::in_window(near, t_min, t_max),
    ensures
        Sphere::select_root_spec(discriminant, near, far, t_min, t_max) == Some(near),
{
}

/// Where only the larger solution lies in the window, it is the hit: the
/// ray starts inside the sphere, or the window starts there.
pub proof fn far_root_is_selected_where_near_is_outside(
    discriminant: Scalar,
    near: Scalar,
    far: Scalar,
    t_min: Scalar,
    t_max: Scalar,
)
    requires
        !discriminant.lt_spec(Scalar::zero_spec()),
        !Sphere::in_window(near, t_min, t_max),
        Sphere::in_window(far, t_min, t_max),
    ensures
        Sphere::select_root_spec(discriminant, near, far, t_min, t_max) == Some(far),
{
}

/// A selected root is one of the two solutions and lies in the window.
pub proof fn selected_root_is_in_window(
    discriminant: Scalar,
    near: Scalar,
    far: Scalar,
    t_min: Scalar,
    t_max: Scalar,
)
    ensures
        match Sphere::select_root_spec(discriminant, near, far, t_min, t_max) {
            Some(root) => (root == near || root == far) && Sphere::in_window(root, t_min, t_max),
            None => discriminant.lt_spec(Scalar::zero_spec()) || (!Sphere::in_window(
                near,
                t_min,
                t_max,
            ) && !Sphere::in_window(far, t_min, t_max)),
        },
{
}

} // verus!
