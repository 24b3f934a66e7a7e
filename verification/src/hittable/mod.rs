//! Surfaces a ray can hit.

use crate::common::scalar::Scalar;
use crate::hittable::hit_record::HitRecord;
use vstd::prelude::*;

pub mod hit_record;
pub mod hittable_list;
pub mod sphere;

verus! {

/// Whether `t` lies in the closed interval `[t_min, t_max]`, in the sense
/// that it is neither below `t_min` nor above `t_max`. A NaN in any place
/// makes both tests fail, so it lets `t` through.
pub open spec fn within(t: Scalar, t_min: Scalar, t_max: Scalar) -> bool {
    !(t.spec_lt(t_min) || t_max.spec_lt(t))
}

/// A surface, or a collection of surfaces, that a ray can be tested against.
///
/// Where a ray's line meets the surface is arithmetic and is computed
/// beforehand, into a `Probe`. `hit` then decides whether, and where, the ray
/// hits within the interval `[t_min, t_max]` of its parameter.
///
/// An implementation proves two laws of its test, which are what a scene
/// needs to find the nearest of many hits by shrinking the interval.
pub trait Hittable {
    /// What has been computed of one ray against this surface.
    type Probe;

    /// The hit of the probed ray within `[t_min, t_max]`, if there is one.
    spec fn spec_hit(&self, probe: &Self::Probe, t_min: Scalar, t_max: Scalar) -> Option<HitRecord>;

    /// The parameters that the test may look at in the probe are numbers,
    /// in the order in which the ray reaches them.
    spec fn is_definite(&self, probe: &Self::Probe) -> bool;

    /// Tests the probed ray against the surface within `[t_min, t_max]`.
    fn hit(&self, probe: &Self::Probe, t_min: Scalar, t_max: Scalar) -> (r: Option<HitRecord>)
        ensures
            r == self.spec_hit(probe, t_min, t_max),
    ;

    /// A hit found within `[t_min, t_max]` lies in that interval, where the
    /// interval's ends are numbers and the probe is definite.
    proof fn lemma_hit_lies_within(&self, probe: &Self::Probe, t_min: Scalar, t_max: Scalar)
        requires
            self.is_definite(probe),
            !t_min.spec_is_nan(),
            !t_max.spec_is_nan(),
        ensures
            self.spec_hit(probe, t_min, t_max) matches Some(record) ==> t_min.spec_le(record.t)
                && record.t.spec_le(t_max),
    ;

    /// Raising the upper end of the interval from `lower` to `upper` keeps a
    /// hit that was found, and where none was found, one that is found now
    /// lies beyond `lower`.
    proof fn lemma_hit_is_kept(
        &self,
        probe: &Self::Probe,
        t_min: Scalar,
        lower: Scalar,
        upper: Scalar,
    )
        requires
            self.is_definite(probe),
            !t_min.spec_is_nan(),
            lower.spec_le(upper),
        ensures
            self.spec_hit(probe, t_min, lower) is Some ==> self.spec_hit(probe, t_min, upper)
                == self.spec_hit(probe, t_min, lower),
            self.spec_hit(probe, t_min, lower) is None ==> (self.spec_hit(
                probe,
                t_min,
                upper,
            ) matches Some(beyond) ==> lower.spec_lt(beyond.t)),
    ;
}

} // verus!
