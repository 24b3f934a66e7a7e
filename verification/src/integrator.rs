//! The light carried back along a ray, one bounce at a time.
//!
//! The colour of a ray is black once the bounce budget is spent, the sky
//! where the ray leaves the scene, black where a surface absorbs it, and
//! otherwise the colour of the scattered ray, traced with one bounce less,
//! times the attenuation of the surface.

use crate::common::material::ScatterSample;
use crate::common::ray::Ray;
use crate::common::scalar::{Scalar, ONE_BITS};
use crate::common::vec3::{Color, Vec3};
use crate::hittable::hit_record::HitRecord;
use crate::hittable::hittable_list::HittableList;
use crate::hittable::Hittable;
use vstd::prelude::*;

verus! {

/// The bit pattern of `0.001`. Hits nearer than this along a ray are
/// ignored, so that a scattered ray does not hit the surface it leaves.
pub const NEAREST_HIT_BITS: u64 = 0x3F50_624D_D2F1_A9FC;

/// The bit pattern of `0.5`.
pub const HALF_BITS: u64 = 0x3FE0_0000_0000_0000;

/// The bit pattern of `0.7`.
pub const SEVEN_TENTHS_BITS: u64 = 0x3FE6_6666_6666_6666;

/// What a ray brings back, as far as one test against the scene tells.
#[derive(Clone, Copy, Debug, PartialEq, Eq, Structural)]
pub enum Trace {
    /// No light: the bounce budget is spent.
    Black,
    /// The ray left the scene and shows the sky.
    Background,
    /// The ray hit a surface, whose material decides what follows.
    Hit(HitRecord),
}

/// What follows a hit.
#[derive(Clone, Copy, Debug, PartialEq, Eq, Structural)]
pub enum Bounce {
    /// No light: the surface absorbed the ray, or the bounce budget is spent.
    Absorbed,
    /// The colour of `scattered`, traced with `depth` bounces left, times
    /// `attenuation`.
    Scattered { attenuation: Color, scattered: Ray, depth: u32 },
}

/// The outcome of testing a ray against the scene with `depth` bounces left.
pub open spec fn spec_ray_color<H: Hittable>(world: &H, probe: &H::Probe, depth: u32) -> Trace {
    if depth == 0 {
        Trace::Black
    } else {
        match world.spec_hit(probe, Scalar { bits: NEAREST_HIT_BITS }, Scalar::spec_infinity()) {
            Some(record) => Trace::Hit(record),
            None => Trace::Background,
        }
    }
}

/// The outcome of a hit with `depth` bounces left.
pub open spec fn spec_bounce(hit_record: HitRecord, sample: ScatterSample, depth: u32) -> Bounce {
    if depth == 0 {
        Bounce::Absorbed
    } else {
        match hit_record.material.spec_scatter(hit_record, sample) {
            Some((attenuation, scattered)) => Bounce::Scattered {
                attenuation,
                scattered,
                depth: (depth - 1) as u32,
            },
            None => Bounce::Absorbed,
        }
    }
}

/// Tests a ray, probed against `world`, with `depth` bounces left. With no
/// bounce left the ray is black whatever it would hit. Otherwise it shows
/// the hit that `world` reports at a parameter from `0.001` upwards, or the
/// sky if there is none.
pub fn ray_color<H: Hittable>(world: &H, probe: &H::Probe, depth: u32) -> (r: Trace)
    ensures
        r == spec_ray_color(world, probe, depth),
        depth == 0 ==> r is Black,
{
    if depth == 0 {
        return Trace::Black;
    }
    match world.hit(probe, Scalar::from_bits(NEAREST_HIT_BITS), Scalar::infinity()) {
        Some(record) => Trace::Hit(record),
        None => Trace::Background,
    }
}

/// A ray with a bounce left shows the sky wherever it goes in an empty scene.
pub proof fn lemma_empty_scene_shows_the_sky<H: Hittable>(
    world: &HittableList<H>,
    probe: &Vec<H::Probe>,
    depth: u32,
)
    requires
        world@.len() == 0,
        depth > 0,
    ensures
        spec_ray_color(world, probe, depth) == Trace::Background,
{
}

/// Lets the material at a hit scatter or absorb the ray, with `depth`
/// bounces left, of which a scattered ray has one less.
pub fn bounce(hit_record: &HitRecord, sample: &ScatterSample, depth: u32) -> (r: Bounce)
    ensures
        r == spec_bounce(*hit_record, *sample, depth),
        depth == 0 ==> r is Absorbed,
        r matches Bounce::Scattered { depth: left, .. } ==> left + 1 == depth,
{
    if depth == 0 {
        return Bounce::Absorbed;
    }
    match hit_record.material.scatter(hit_record, sample) {
        Some((attenuation, scattered)) => Bounce::Scattered {
            attenuation,
            scattered,
            depth: depth - 1,
        },
        None => Bounce::Absorbed,
    }
}

/// The colour of the sky at the horizon: white.
pub fn horizon() -> (r: Color)
    ensures
        r == Vec3(Scalar::one(), Scalar::one(), Scalar::one()),
{
    Vec3(Scalar::one(), Scalar::one(), Scalar::one())
}

/// The colour of the sky at the zenith: the blue `(0.5, 0.7, 1.0)`.
pub fn zenith() -> (r: Color)
    ensures
        r == Vec3(
            (Scalar { bits: HALF_BITS }),
            (Scalar { bits: SEVEN_TENTHS_BITS }),
            (Scalar { bits: ONE_BITS }),
        ),
{
    Vec3(Scalar::from_bits(HALF_BITS), Scalar::from_bits(SEVEN_TENTHS_BITS), Scalar::one())
}

} // verus!
