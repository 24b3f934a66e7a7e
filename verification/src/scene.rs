//! The choices made while a scene of small spheres is scattered at random
//! over a plane, round a centrepiece.

use crate::common::scalar::Scalar;
use vstd::prelude::*;

verus! {

/// The bit pattern of `0.8`: draws below it give a diffuse sphere.
pub const DIFFUSE_BELOW_BITS: u64 = 0x3FE9_9999_9999_999A;

/// The bit pattern of `0.95`: draws below it, and not below `0.8`, give a
/// metal sphere.
pub const METAL_BELOW_BITS: u64 = 0x3FEE_6666_6666_6666;

/// The bit pattern of `0.9`: a small sphere is placed only where its centre
/// is farther than this from the point kept clear.
pub const CLEARANCE_BITS: u64 = 0x3FEC_CCCC_CCCC_CCCD;

/// The kind of material a small sphere is given.
#[derive(Clone, Copy, Debug, PartialEq, Eq, Structural)]
pub enum MaterialChoice {
    Diffuse,
    Metal,
    Glass,
}

/// The kind of material that the draw `choose_mat` selects.
pub open spec fn spec_choose_material(choose_mat: Scalar) -> MaterialChoice {
    if choose_mat.spec_lt(Scalar { bits: DIFFUSE_BELOW_BITS }) {
        MaterialChoice::Diffuse
    } else if choose_mat.spec_lt(Scalar { bits: METAL_BELOW_BITS }) {
        MaterialChoice::Metal
    } else {
        MaterialChoice::Glass
    }
}

/// Picks the material of a small sphere from a uniform draw out of
/// `[0, 1)`: diffuse below `0.8`, metal from there up to `0.95`, glass above.
#[verifier::when_used_as_spec(spec_choose_material)]
pub fn choose_material(choose_mat: Scalar) -> (r: MaterialChoice)
    ensures
        r == spec_choose_material(choose_mat),
{
    if choose_mat.lt(Scalar::from_bits(DIFFUSE_BELOW_BITS)) {
        MaterialChoice::Diffuse
    } else if choose_mat.lt(Scalar::from_bits(METAL_BELOW_BITS)) {
        MaterialChoice::Metal
    } else {
        MaterialChoice::Glass
    }
}

/// Whether a small sphere may be placed, given the distance of its centre
/// from the point kept clear: only where that is above `0.9`.
pub fn keeps_clear(distance: Scalar) -> (r: bool)
    ensures
        r == distance.spec_gt(Scalar { bits: CLEARANCE_BITS }),
{
    distance.gt(Scalar::from_bits(CLEARANCE_BITS))
}

} // verus!
