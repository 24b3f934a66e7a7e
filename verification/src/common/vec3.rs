//! Triples of scalars, used as vectors, points and colours.

use crate::common::decimal::{numeral, push_numeral};
use crate::common::scalar::Scalar;
use vstd::prelude::*;
use vstd::string::StringExecFns;

verus! {

/// The bit pattern of `1e-8`: a component of smaller magnitude counts as zero.
pub const NEAR_ZERO_BITS: u64 = 0x3E45_798E_E230_8C3A;

/// Three scalars: `x, y, z` of a vector or point, `r, g, b` of a colour.
#[derive(Clone, Copy, Debug, PartialEq, Eq, Structural)]
pub struct Vec3(pub Scalar, pub Scalar, pub Scalar);

/// A position in space.
pub type Point3 = Vec3;

/// Red, green and blue intensities.
pub type Color = Vec3;

impl Vec3 {
    /// Every component has magnitude below `1e-8`.
    pub open spec fn spec_near_zero(&self) -> bool {
        let e = Scalar { bits: NEAR_ZERO_BITS };
        self.0.spec_abs().spec_lt(e) && self.1.spec_abs().spec_lt(e) && self.2.spec_abs().spec_lt(e)
    }

    /// The vector with every component negated.
    pub open spec fn spec_neg(&self) -> Vec3 {
        Vec3(self.0.spec_neg(), self.1.spec_neg(), self.2.spec_neg())
    }

    /// The text of one pixel: the three channel levels in decimal, separated
    /// by single spaces and ended by a line feed.
    pub open spec fn pixel_line(self) -> Seq<char> {
        numeral(self.0.spec_channel() as nat) + seq![' '] + numeral(self.1.spec_channel() as nat)
            + seq![' '] + numeral(self.2.spec_channel() as nat) + seq!['\n']
    }

    /// The triple of the three given components.
    pub fn new(e0: Scalar, e1: Scalar, e2: Scalar) -> (r: Vec3)
        ensures
            r == Vec3(e0, e1, e2),
    {
        Vec3(e0, e1, e2)
    }

    /// The triple of three positive zeros: the origin, and black.
    pub fn zeros() -> (r: Vec3)
        ensures
            r == Vec3(Scalar::zero(), Scalar::zero(), Scalar::zero()),
    {
        Vec3(Scalar::zero(), Scalar::zero(), Scalar::zero())
    }

    /// The first component.
    pub fn x(&self) -> (r: Scalar)
        ensures
            r == self.0,
    {
        self.0
    }

    /// The second component.
    pub fn y(&self) -> (r: Scalar)
        ensures
            r == self.1,
    {
        self.1
    }

    /// The third component.
    pub fn z(&self) -> (r: Scalar)
        ensures
            r == self.2,
    {
        self.2
    }

    /// The vector pointing the opposite way.
    #[verifier::when_used_as_spec(spec_neg)]
    pub fn neg(&self) -> (r: Vec3)
        ensures
            r == self.spec_neg(),
    {
        Vec3(self.0.neg(), self.1.neg(), self.2.neg())
    }

    /// Whether the vector is too short to serve as a direction.
    #[verifier::when_used_as_spec(spec_near_zero)]
    pub fn near_zero(&self) -> (r: bool)
        ensures
            r == self.spec_near_zero(),
    {
        let e = Scalar::from_bits(NEAR_ZERO_BITS);
        self.0.abs().lt(e) && self.1.abs().lt(e) && self.2.abs().lt(e)
    }

    /// One round of sampling the open unit ball by rejection: `candidate` is
    /// a point drawn from the cube `[-1, 1)^3` and `length_squared` its
    /// squared length. The candidate is the sample exactly when its squared
    /// length is below one; on `None` the caller draws again.
    pub fn random_in_unit_sphere(candidate: Vec3, length_squared: Scalar) -> (r: Option<Vec3>)
        ensures
            r == if length_squared.spec_lt(Scalar::one()) {
                Some(candidate)
            } else {
                None
            },
    {
        if length_squared.lt(Scalar::one()) {
            Some(candidate)
        } else {
            None
        }
    }

    /// One round of sampling the open unit disk of the plane `z = 0` by
    /// rejection: `(x, y)` is a point drawn from the square `[-1, 1)^2` and
    /// `length_squared` its squared length. The point `(x, y, 0)` is the
    /// sample exactly when its squared length is below one; on `None` the
    /// caller draws again.
    pub fn random_in_unit_disk(x: Scalar, y: Scalar, length_squared: Scalar) -> (r: Option<Vec3>)
        ensures
            r == if length_squared.spec_lt(Scalar::one()) {
                Some(Vec3(x, y, Scalar::zero()))
            } else {
                None
            },
    {
        if length_squared.lt(Scalar::one()) {
            Some(Vec3(x, y, Scalar::zero()))
        } else {
            None
        }
    }

    /// The line of text for a pixel whose gamma-corrected colour is `self`:
    /// each component is held to `[0, 0.999]`, scaled by 256 and truncated.
    pub fn get_color_buf(&self) -> (line: String)
        ensures
            line@ == self.pixel_line(),
    {
        let mut line = String::new();
        push_numeral(&mut line, self.0.channel());
        line.append(" ");
        push_numeral(&mut line, self.1.channel());
        line.append(" ");
        push_numeral(&mut line, self.2.channel());
        line.append("\n");
        proof {
            reveal_strlit(" ");
            reveal_strlit("\n");
            assert(" "@ =~= seq![' ']);
            assert("\n"@ =~= seq!['\n']);
        }
        assert(line@ =~= self.pixel_line());
        line
    }
}

} // verus!
