//! Spheres.

use crate::common::material::Material;
use crate::common::scalar::Scalar;
use crate::common::vec3::{Point3, Vec3};
use crate::hittable::hit_record::{faces_front, facing_normal, HitRecord};
use crate::hittable::{within, Hittable};
use vstd::prelude::*;

verus! {

/// A sphere. The radius is taken as given: its sign is not examined.
#[derive(Clone, Copy, Debug, PartialEq, Eq, Structural)]
pub struct Sphere {
    pub center: Point3,
    pub radius: Scalar,
    pub material: Material,
}

/// One of the two points where a ray's line meets a sphere.
#[derive(Clone, Copy, Debug, PartialEq, Eq, Structural)]
pub struct SurfacePoint {
    /// The root of the quadratic: the ray's parameter at the point.
    pub t: Scalar,
    /// The point, `origin + t * direction`.
    pub p: Point3,
    /// The outward normal there, `(p - center) / radius`.
    pub outward_normal: Vec3,
    /// The dot product of the ray's direction with `outward_normal`.
    pub direction_dot_outward: Scalar,
}

/// What has been computed of one ray against one sphere. With `oc` the
/// vector from the centre to the ray's origin and `d` the ray's direction,
/// the ray's parameter `t` at the sphere solves `a t^2 + 2 h t + c = 0`,
/// where `a = |d|^2`, `h = oc . d` and `c = |oc|^2 - radius^2`.
#[derive(Clone, Copy, Debug, PartialEq, Eq, Structural)]
pub struct Crossing {
    /// `h^2 - a c`.
    pub discriminant: Scalar,
    /// The point at the smaller root, `(-h - sqrt(discriminant)) / a`.
    pub near: SurfacePoint,
    /// The point at the larger root, `(-h + sqrt(discriminant)) / a`.
    pub far: SurfacePoint,
}

impl Crossing {
    /// The roots are numbers in order wherever the hit rule looks at them:
    /// unless the discriminant is below zero, the smaller root is at most
    /// the larger.
    pub open spec fn is_definite(self) -> bool {
        self.discriminant.spec_lt(Scalar::zero()) || self.near.t.spec_le(self.far.t)
    }
}

impl Sphere {
    /// The record of a hit of this sphere at `point`.
    pub open spec fn record_at(self, point: SurfacePoint) -> HitRecord {
        HitRecord {
            p: point.p,
            normal: facing_normal(point.direction_dot_outward, point.outward_normal),
            t: point.t,
            front_face: faces_front(point.direction_dot_outward),
            material: self.material,
        }
    }

    /// The sphere with the given centre, radius and material.
    pub fn new(center: Point3, radius: Scalar, material: Material) -> (r: Sphere)
        ensures
            r.center == center,
            r.radius == radius,
            r.material == material,
    {
        Sphere { center, radius, material }
    }

    fn record(&self, point: &SurfacePoint) -> (r: HitRecord)
        ensures
            r == self.record_at(*point),
    {
        let mut record = HitRecord {
            t: point.t,
            p: point.p,
            material: self.material,
            normal: Vec3::zeros(),
            front_face: false,
        };
        record.set_face_normal(point.direction_dot_outward, point.outward_normal);
        record
    }
}

impl Hittable for Sphere {
    type Probe = Crossing;

    /// No hit where the discriminant is below zero. Otherwise the point at
    /// the smaller root if that root lies within `[t_min, t_max]`, else the
    /// point at the larger root if that one does, else no hit.
    open spec fn spec_hit(&self, probe: &Crossing, t_min: Scalar, t_max: Scalar) -> Option<
        HitRecord,
    > {
        if probe.discriminant.spec_lt(Scalar::zero()) {
            None
        } else if within(probe.near.t, t_min, t_max) {
            Some(self.record_at(probe.near))
        } else if within(probe.far.t, t_min, t_max) {
            Some(self.record_at(probe.far))
        } else {
            None
        }
    }

    open spec fn is_definite(&self, probe: &Crossing) -> bool {
        probe.is_definite()
    }

    fn hit(&self, probe: &Crossing, t_min: Scalar, t_max: Scalar) -> (r: Option<HitRecord>)
        ensures
            r matches Some(record) ==> within(record.t, t_min, t_max) && (record
                == self.record_at(probe.near) || record == self.record_at(probe.far)),
    {
        if probe.discriminant.lt(Scalar::zero()) {
            return None;
        }
        let mut point = &probe.near;
        if point.t.lt(t_min) || t_max.lt(point.t) {
            point = &probe.far;
            if point.t.lt(t_min) || t_max.lt(point.t) {
                return None;
            }
        }
        Some(self.record(point))
    }

    proof fn lemma_hit_lies_within(&self, probe: &Crossing, t_min: Scalar, t_max: Scalar) {
    }

    proof fn lemma_hit_is_kept(
        &self,
        probe: &Crossing,
        t_min: Scalar,
        lower: Scalar,
        upper: Scalar,
    ) {
    }
}

} // verus!
