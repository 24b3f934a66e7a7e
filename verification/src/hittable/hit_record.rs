//! The record of one intersection of a ray with a surface.

use crate::common::material::Material;
use crate::common::scalar::Scalar;
use crate::common::vec3::{Point3, Vec3};
use vstd::prelude::*;

verus! {

/// Where and how a ray met a surface.
///
/// `normal` is the surface normal turned against the ray: the outward normal
/// when the ray came from outside (`front_face`), its negation when the ray
/// came from inside.
#[derive(Clone, Copy, Debug, PartialEq, Eq, Structural)]
pub struct HitRecord {
    /// The point of intersection.
    pub p: Point3,
    /// The unit normal at `p`, facing the side the ray came from.
    pub normal: Vec3,
    /// The parameter along the ray at which it reaches `p`.
    pub t: Scalar,
    /// Whether the ray met the surface from outside.
    pub front_face: bool,
    /// The material of the surface.
    pub material: Material,
}

/// Whether a ray meets a surface from outside, given the dot product of the
/// ray's direction with the outward normal: when that is below zero.
pub open spec fn faces_front(direction_dot_outward: Scalar) -> bool {
    direction_dot_outward.spec_lt(Scalar::zero())
}

/// The normal turned against the ray.
pub open spec fn facing_normal(direction_dot_outward: Scalar, outward_normal: Vec3) -> Vec3 {
    if faces_front(direction_dot_outward) {
        outward_normal
    } else {
        outward_normal.spec_neg()
    }
}

/// The dot product of the ray's direction with the normal turned against it:
/// negating a vector negates its dot products.
pub open spec fn direction_dot_facing(direction_dot_outward: Scalar) -> Scalar {
    if faces_front(direction_dot_outward) {
        direction_dot_outward
    } else {
        direction_dot_outward.spec_neg()
    }
}

impl HitRecord {
    /// Turns the normal against the ray. `direction_dot_outward` is the dot
    /// product of the ray's direction with `outward_normal`.
    pub fn set_face_normal(&mut self, direction_dot_outward: Scalar, outward_normal: Vec3)
        ensures
            final(self).front_face == faces_front(direction_dot_outward),
            final(self).normal == facing_normal(direction_dot_outward, outward_normal),
            final(self).p == old(self).p,
            final(self).t == old(self).t,
            final(self).material == old(self).material,
    {
        self.front_face = direction_dot_outward.lt(Scalar::zero());
        self.normal = if self.front_face {
            outward_normal
        } else {
            outward_normal.neg()
        };
    }
}

/// The stored normal never points along the ray: where the dot product of
/// the ray's direction with the outward normal is a number, its dot product
/// with the normal turned against the ray is at most zero.
pub proof fn lemma_normal_opposes_ray(direction_dot_outward: Scalar)
    requires
        !direction_dot_outward.spec_is_nan(),
    ensures
        direction_dot_facing(direction_dot_outward).spec_le(Scalar::zero()),
{
}

} // verus!
