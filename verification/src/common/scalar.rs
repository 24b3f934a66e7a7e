//! Binary64 values as bit patterns, and the operations on them that need no
//! rounding: classification, comparison, sign changes and selection.

use vstd::arithmetic::div_mod::{lemma_basic_div, lemma_remainder};
use vstd::arithmetic::power2::lemma_pow2_pos;
use vstd::arithmetic::power2::{lemma2_to64_rest, lemma_pow2_strictly_increases, pow2};
use vstd::bits::lemma_u64_shr_is_div;
use vstd::prelude::*;

verus! {

/// The bit pattern in which only the sign bit is set (negative zero).
pub const SIGN_BIT: u64 = 0x8000_0000_0000_0000;

/// The bit pattern of positive infinity. A magnitude above it is not a number.
pub const INFINITY_BITS: u64 = 0x7FF0_0000_0000_0000;

/// The bit pattern of `1`.
pub const ONE_BITS: u64 = 0x3FF0_0000_0000_0000;

/// The bit pattern of `0.999`, the highest level a colour channel may hold
/// before it is scaled to an integer.
pub const TOP_LEVEL_BITS: u64 = 0x3FEF_F7CE_D916_872B;

/// Two to the power 52: the weight of the leading bit that the pattern of a
/// normal value leaves out of its fraction.
pub const HIDDEN_BIT: u64 = 0x10_0000_0000_0000;

/// An IEEE 754 binary64 value, held as its 64-bit pattern: one sign bit,
/// eleven exponent bits, fifty-two fraction bits.
///
/// The derived `==` compares patterns, so it tells the two zeros apart and
/// finds a NaN equal to itself; [`Scalar::num_eq`] is the numeric equality.
#[derive(Clone, Copy, Debug, PartialEq, Eq, Structural)]
pub struct Scalar {
    pub bits: u64,
}

impl Scalar {
    /// The sign bit is set. True of negative zero and of NaNs with the bit set.
    pub open spec fn spec_is_sign_negative(self) -> bool {
        self.bits >= SIGN_BIT
    }

    /// The pattern with the sign bit cleared, as an integer.
    pub open spec fn magnitude(self) -> int {
        if self.bits >= SIGN_BIT {
            self.bits - SIGN_BIT
        } else {
            self.bits as int
        }
    }

    /// The value is a NaN: all exponent bits set and a nonzero fraction.
    pub open spec fn spec_is_nan(self) -> bool {
        self.magnitude() > INFINITY_BITS
    }

    /// An integer that orders the numbers as their values do: the magnitude,
    /// negated where the sign bit is set. Both zeros have rank 0.
    pub open spec fn rank(self) -> int {
        if self.bits >= SIGN_BIT {
            -self.magnitude()
        } else {
            self.magnitude()
        }
    }

    /// `self < other` as IEEE 754 defines it: false if either is a NaN.
    pub open spec fn spec_lt(self, other: Scalar) -> bool {
        !self.spec_is_nan() && !other.spec_is_nan() && self.rank() < other.rank()
    }

    /// `self <= other` as IEEE 754 defines it: false if either is a NaN.
    pub open spec fn spec_le(self, other: Scalar) -> bool {
        !self.spec_is_nan() && !other.spec_is_nan() && self.rank() <= other.rank()
    }

    /// `self > other` as IEEE 754 defines it: false if either is a NaN.
    pub open spec fn spec_gt(self, other: Scalar) -> bool {
        other.spec_lt(self)
    }

    /// `self == other` as IEEE 754 defines it: the zeros are equal, a NaN
    /// equals nothing.
    pub open spec fn spec_num_eq(self, other: Scalar) -> bool {
        !self.spec_is_nan() && !other.spec_is_nan() && self.rank() == other.rank()
    }

    /// The value with this bit pattern.
    pub fn from_bits(bits: u64) -> (r: Scalar)
        ensures
            r.bits == bits,
    {
        Scalar { bits }
    }

    /// The bit pattern of the value.
    pub fn to_bits(self) -> (r: u64)
        ensures
            r == self.bits,
    {
        self.bits
    }

    /// Positive zero.
    pub open spec fn spec_zero() -> Scalar {
        Scalar { bits: 0 }
    }

    /// The number one.
    pub open spec fn spec_one() -> Scalar {
        Scalar { bits: ONE_BITS }
    }

    /// Positive infinity.
    pub open spec fn spec_infinity() -> Scalar {
        Scalar { bits: INFINITY_BITS }
    }

    /// Positive zero.
    #[verifier::when_used_as_spec(spec_zero)]
    pub fn zero() -> (r: Scalar)
        ensures
            r == Scalar::spec_zero(),
    {
        Scalar { bits: 0 }
    }

    /// The number one.
    #[verifier::when_used_as_spec(spec_one)]
    pub fn one() -> (r: Scalar)
        ensures
            r == Scalar::spec_one(),
    {
        Scalar { bits: ONE_BITS }
    }

    /// Positive infinity.
    #[verifier::when_used_as_spec(spec_infinity)]
    pub fn infinity() -> (r: Scalar)
        ensures
            r == Scalar::spec_infinity(),
    {
        Scalar { bits: INFINITY_BITS }
    }

    fn magnitude_bits(self) -> (m: u64)
        ensures
            m == self.magnitude(),
    {
        if self.bits >= SIGN_BIT {
            self.bits - SIGN_BIT
        } else {
            self.bits
        }
    }

    /// Whether the sign bit is set.
    #[verifier::when_used_as_spec(spec_is_sign_negative)]
    pub fn is_sign_negative(self) -> (r: bool)
        ensures
            r == self.spec_is_sign_negative(),
    {
        self.bits >= SIGN_BIT
    }

    /// Whether the value is a NaN.
    #[verifier::when_used_as_spec(spec_is_nan)]
    pub fn is_nan(self) -> (r: bool)
        ensures
            r == self.spec_is_nan(),
    {
        self.magnitude_bits() > INFINITY_BITS
    }

    /// Numeric `<`.
    #[verifier::when_used_as_spec(spec_lt)]
    pub fn lt(self, other: Scalar) -> (r: bool)
        ensures
            r == self.spec_lt(other),
    {
        if self.is_nan() || other.is_nan() {
            return false;
        }
        let a: u64 = self.magnitude_bits();
        let b: u64 = other.magnitude_bits();
        if self.bits >= SIGN_BIT {
            if other.bits >= SIGN_BIT {
                b < a
            } else {
                a != 0 || b != 0
            }
        } else {
            other.bits < SIGN_BIT && a < b
        }
    }

    /// Numeric `<=`.
    #[verifier::when_used_as_spec(spec_le)]
    pub fn le(self, other: Scalar) -> (r: bool)
        ensures
            r == self.spec_le(other),
    {
        if self.is_nan() || other.is_nan() {
            return false;
        }
        let a: u64 = self.magnitude_bits();
        let b: u64 = other.magnitude_bits();
        if self.bits >= SIGN_BIT {
            other.bits < SIGN_BIT || b <= a
        } else if other.bits >= SIGN_BIT {
            a == 0 && b == 0
        } else {
            a <= b
        }
    }

    /// Numeric `>`.
    #[verifier::when_used_as_spec(spec_gt)]
    pub fn gt(self, other: Scalar) -> (r: bool)
        ensures
            r == self.spec_gt(other),
    {
        other.lt(self)
    }

    /// Numeric `==`.
    #[verifier::when_used_as_spec(spec_num_eq)]
    pub fn num_eq(self, other: Scalar) -> (r: bool)
        ensures
            r == self.spec_num_eq(other),
    {
        if self.is_nan() || other.is_nan() {
            return false;
        }
        let a: u64 = self.magnitude_bits();
        let b: u64 = other.magnitude_bits();
        self.bits == other.bits || (a == 0 && b == 0)
    }

    /// The value with its sign bit flipped. Exact for every value, NaNs
    /// included: only the sign bit changes.
    pub open spec fn spec_neg(self) -> Scalar {
        if self.bits >= SIGN_BIT {
            Scalar { bits: (self.bits - SIGN_BIT) as u64 }
        } else {
            Scalar { bits: (self.bits + SIGN_BIT) as u64 }
        }
    }

    /// The value with its sign bit cleared.
    pub open spec fn spec_abs(self) -> Scalar {
        Scalar { bits: self.magnitude() as u64 }
    }

    /// The lesser of two values, a NaN giving way to the other argument.
    /// Where neither is less (equal values, the two zeros, two NaNs) it is
    /// `self`.
    pub open spec fn spec_min(self, other: Scalar) -> Scalar {
        if self.spec_is_nan() {
            other
        } else if other.spec_lt(self) {
            other
        } else {
            self
        }
    }

    /// The greater of two values, a NaN giving way to the other argument.
    /// Where neither is greater it is `self`.
    pub open spec fn spec_max(self, other: Scalar) -> Scalar {
        if self.spec_is_nan() {
            other
        } else if self.spec_lt(other) {
            other
        } else {
            self
        }
    }

    /// `self` held to `[lo, hi]`: `lo` if `self < lo`, `hi` if `self > hi`,
    /// else `self` unchanged, so a NaN stays a NaN and negative zero stays
    /// negative zero.
    pub open spec fn spec_clamp(self, lo: Scalar, hi: Scalar) -> Scalar {
        if self.spec_lt(lo) {
            lo
        } else if self.spec_gt(hi) {
            hi
        } else {
            self
        }
    }

    /// Negation.
    #[verifier::when_used_as_spec(spec_neg)]
    pub fn neg(self) -> (r: Scalar)
        ensures
            r == self.spec_neg(),
    {
        if self.bits >= SIGN_BIT {
            Scalar { bits: self.bits - SIGN_BIT }
        } else {
            Scalar { bits: self.bits + SIGN_BIT }
        }
    }

    /// Absolute value.
    #[verifier::when_used_as_spec(spec_abs)]
    pub fn abs(self) -> (r: Scalar)
        ensures
            r == self.spec_abs(),
    {
        Scalar { bits: self.magnitude_bits() }
    }

    /// Minimum of two values, ignoring a NaN.
    #[verifier::when_used_as_spec(spec_min)]
    pub fn min(self, other: Scalar) -> (r: Scalar)
        ensures
            r == self.spec_min(other),
    {
        if self.is_nan() {
            other
        } else if other.lt(self) {
            other
        } else {
            self
        }
    }

    /// Maximum of two values, ignoring a NaN.
    #[verifier::when_used_as_spec(spec_max)]
    pub fn max(self, other: Scalar) -> (r: Scalar)
        ensures
            r == self.spec_max(other),
    {
        if self.is_nan() {
            other
        } else if self.lt(other) {
            other
        } else {
            self
        }
    }

    /// `self` held to `[lo, hi]`. The bounds must be numbers in order.
    #[verifier::when_used_as_spec(spec_clamp)]
    pub fn clamp(self, lo: Scalar, hi: Scalar) -> (r: Scalar)
        requires
            lo.spec_le(hi),
        ensures
            r == self.spec_clamp(lo, hi),
    {
        if self.lt(lo) {
            lo
        } else if self.gt(hi) {
            hi
        } else {
            self
        }
    }
}

impl Scalar {
    /// The eleven exponent bits, as an integer. Zero marks zero and the
    /// subnormal values.
    pub open spec fn exponent_field(self) -> int {
        self.magnitude() / (HIDDEN_BIT as int)
    }

    /// The integer `m` of a finite value `m * 2^k`: the fraction bits, with
    /// the hidden bit in front unless the exponent field is zero.
    pub open spec fn significand(self) -> int {
        if self.magnitude() < HIDDEN_BIT {
            self.magnitude()
        } else {
            HIDDEN_BIT + self.magnitude() % (HIDDEN_BIT as int)
        }
    }

    /// The exponent `k` of a finite value `m * 2^k`, where `m` is the
    /// significand.
    pub open spec fn scale(self) -> int {
        if self.magnitude() < HIDDEN_BIT {
            -1074
        } else {
            self.exponent_field() - 1075
        }
    }

    /// The whole part of `256 * |self|` for a finite value of magnitude
    /// below one: `256 * m * 2^k` is `m / 2^(-k - 8)`, rounded down.
    pub open spec fn floor_of_256_times(self) -> int {
        self.significand() / (pow2((-self.scale() - 8) as nat) as int)
    }

    /// The integer level of a colour channel: the value held to
    /// `[0, 0.999]`, multiplied by 256 and truncated. A NaN gives 0.
    pub open spec fn spec_channel(self) -> int {
        if self.spec_is_nan() {
            0
        } else {
            self.spec_clamp(Scalar::spec_zero(), Scalar { bits: TOP_LEVEL_BITS }).floor_of_256_times()
        }
    }

    /// The integer level of a colour channel, from 0 to 255.
    pub fn channel(self) -> (c: u32)
        ensures
            c == self.spec_channel(),
            c <= 255,
    {
        if self.is_nan() {
            return 0;
        }
        let held = self.clamp(Scalar { bits: 0 }, Scalar { bits: TOP_LEVEL_BITS });
        let m: u64 = held.magnitude_bits();
        assert(m <= TOP_LEVEL_BITS);
        let e: u64 = m / HIDDEN_BIT;
        if e < 1015 {
            proof {
                lemma_below_one_in_256_floors_to_zero(held);
            }
            0
        } else {
            let significand: u64 = HIDDEN_BIT + m % HIDDEN_BIT;
            let shift: u64 = 1067 - e;
            proof {
                assert(held.significand() == significand);
                assert(-held.scale() - 8 == shift);
                lemma_u64_shr_is_div(significand, shift);
                lemma_level_fits(significand as int, shift as nat);
            }
            let level: u64 = significand >> shift;
            level as u32
        }
    }
}

/// A significand shifted down by 45 to 52 places fits in eight bits.
proof fn lemma_level_fits(significand: int, shift: nat)
    requires
        0 <= significand < 2 * HIDDEN_BIT,
        45 <= shift <= 52,
    ensures
        0 <= significand / (pow2(shift) as int) <= 255,
{
    lemma2_to64_rest();
    if shift == 45 {
    } else if shift == 46 {
    } else if shift == 47 {
    } else if shift == 48 {
    } else if shift == 49 {
    } else if shift == 50 {
    } else if shift == 51 {
    } else {
    }
}

/// A value whose exponent field is under 1015 has magnitude under `1/256`,
/// so 256 times it has whole part zero.
proof fn lemma_below_one_in_256_floors_to_zero(x: Scalar)
    requires
        x.exponent_field() < 1015,
    ensures
        x.floor_of_256_times() == 0,
{
    let shift = (-x.scale() - 8) as nat;
    lemma2_to64_rest();
    assert(x.significand() < pow2(53));
    if shift > 53 {
        lemma_pow2_strictly_increases(53, shift);
    }
    lemma_basic_div(x.significand(), pow2(shift) as int);
}

/// What the whole part of `256 * |x|` means: for a finite `x = m * 2^k` of
/// magnitude below one, with `c` that whole part and `d = 2^(-k - 8)`, the
/// significand `m` lies in `[c * d, (c + 1) * d)`; dividing through by `d`,
/// `c <= 256 * |x| < c + 1`.
pub proof fn lemma_floor_brackets_the_value(x: Scalar)
    requires
        x.exponent_field() < 1023,
    ensures
        ({
            let d = pow2((-x.scale() - 8) as nat) as int;
            let c = x.floor_of_256_times();
            d > 0 && c * d <= x.significand() < (c + 1) * d
        }),
{
    let d = pow2((-x.scale() - 8) as nat) as int;
    let c = x.floor_of_256_times();
    lemma_pow2_pos((-x.scale() - 8) as nat);
    lemma_remainder(x.significand(), d);
    assert((c + 1) * d == c * d + d) by (nonlinear_arith);
}

/// Among numbers, `<` is a strict order: nothing is below itself, and it
/// carries across a chain, also where a link is `<=`.
pub proof fn lemma_order_is_strict(a: Scalar, b: Scalar, c: Scalar)
    ensures
        !a.spec_lt(a),
        a.spec_lt(b) ==> !b.spec_lt(a),
        a.spec_lt(b) && b.spec_lt(c) ==> a.spec_lt(c),
        a.spec_lt(b) && b.spec_le(c) ==> a.spec_lt(c),
        a.spec_le(b) && b.spec_lt(c) ==> a.spec_lt(c),
        a.spec_le(b) && b.spec_le(c) ==> a.spec_le(c),
{
}

/// Two values that are both numbers stand in exactly one of `<`, numeric
/// `==` and `>`; if either is a NaN they stand in none.
pub proof fn lemma_order_is_total_on_numbers(a: Scalar, b: Scalar)
    ensures
        !a.spec_is_nan() && !b.spec_is_nan() ==> (a.spec_lt(b) || a.spec_num_eq(b) || a.spec_gt(b)),
        !(a.spec_lt(b) && a.spec_num_eq(b)),
        !(a.spec_gt(b) && a.spec_num_eq(b)),
        !(a.spec_lt(b) && a.spec_gt(b)),
        a.spec_le(b) <==> a.spec_lt(b) || a.spec_num_eq(b),
        a.spec_is_nan() || b.spec_is_nan() ==> !a.spec_lt(b) && !a.spec_le(b) && !a.spec_gt(b)
            && !a.spec_num_eq(b),
{
}

/// Negation is its own inverse, keeps NaNs NaNs, and mirrors the order.
pub proof fn lemma_neg_mirrors_order(a: Scalar, b: Scalar)
    ensures
        a.spec_neg().spec_neg() == a,
        a.spec_neg().spec_is_nan() == a.spec_is_nan(),
        a.spec_neg().rank() == -a.rank(),
        a.spec_lt(b) <==> b.spec_neg().spec_lt(a.spec_neg()),
        a.spec_le(b) <==> b.spec_neg().spec_le(a.spec_neg()),
{
}

} // verus!
