//! Order and clamping of IEEE-754 doubles, on their bit patterns.
//!
//! A double is held as the 64-bit pattern that `f64::to_bits` gives. Apart from the sign bit, a
//! pattern read as an unsigned integer grows with the magnitude of the number it stands for, so
//! two doubles compare as two integers do. A pattern above that of infinity is a NaN, which is
//! ordered against nothing.
use vstd::prelude::*;

verus! {

/// 2 to the power 52: the weight of the exponent field, and the implicit leading bit.
pub const LEADING_BIT: u64 = 0x0010_0000_0000_0000;

/// The sign bit.
pub const SIGN_BIT: u64 = 0x8000_0000_0000_0000;

/// The pattern of positive infinity; a larger magnitude is a NaN.
pub const INFINITY_BITS: u64 = 0x7FF0_0000_0000_0000;

/// The pattern of 1.0.
pub const ONE_BITS: u64 = 0x3FF0_0000_0000_0000;

/// An IEEE-754 double.
#[derive(Debug, Clone, Copy, PartialEq, Eq, Hash, Structural)]
pub struct Binary64 {
    /// The bit pattern.
    pub bits: u64,
}

impl Binary64 {
    /// The pattern without its sign bit.
    pub open spec fn magnitude(self) -> int {
        if self.bits < SIGN_BIT {
            self.bits as int
        } else {
            self.bits - SIGN_BIT
        }
    }

    /// True when the pattern stands for no number.
    pub open spec fn nan(self) -> bool {
        self.magnitude() > INFINITY_BITS
    }

    /// The position of the number among all numbers; both zeros are at position 0.
    pub open spec fn rank(self) -> int {
        if self.bits < SIGN_BIT {
            self.magnitude()
        } else {
            -self.magnitude()
        }
    }

    /// `self < other` for doubles: false as soon as either side is a NaN.
    pub open spec fn below(self, other: Self) -> bool {
        !self.nan() && !other.nan() && self.rank() < other.rank()
    }

    /// `self <= other` for doubles: false as soon as either side is a NaN.
    pub open spec fn at_most(self, other: Self) -> bool {
        !self.nan() && !other.nan() && self.rank() <= other.rank()
    }

    /// `self` restricted to `[min, max]`; a NaN stays a NaN.
    pub open spec fn restricted(self, min: Self, max: Self) -> Self {
        if self.below(min) {
            min
        } else if max.below(self) {
            max
        } else {
            self
        }
    }

    /// True for a number in `[0, 1]`.
    pub open spec fn in_unit(self) -> bool {
        !self.nan() && 0 <= self.rank() <= ONE_BITS
    }

    /// The exponent field.
    pub open spec fn exponent(self) -> int {
        self.magnitude() / (LEADING_BIT as int)
    }

    /// The significand of a number with a nonzero exponent field. The magnitude of such a number
    /// is the significand times 2 to the power `exponent - 1075`.
    pub open spec fn significand(self) -> nat {
        (LEADING_BIT + self.magnitude() % (LEADING_BIT as int)) as nat
    }

    /// The whole part of the magnitude of this number. Below 1.0 it is zero.
    pub open spec fn whole_part(self) -> nat {
        let exponent = self.exponent();
        let significand = self.significand();
        if exponent < 1023 {
            0
        } else if exponent <= 1075 {
            significand / vstd::arithmetic::power2::pow2((1075 - exponent) as nat)
        } else {
            significand * vstd::arithmetic::power2::pow2((exponent - 1075) as nat)
        }
    }

    /// The double with the given pattern.
    pub fn from_bits(bits: u64) -> (r: Self)
        ensures
            r.bits == bits,
    {
        Binary64 { bits }
    }

    /// The pattern of this double.
    pub fn to_bits(self) -> (r: u64)
        ensures
            r == self.bits,
    {
        self.bits
    }

    /// The number 0.0.
    pub fn zero() -> (r: Self)
        ensures
            r.bits == 0,
    {
        Binary64 { bits: 0 }
    }

    /// The number 1.0.
    pub fn one() -> (r: Self)
        ensures
            r.bits == ONE_BITS,
    {
        Binary64 { bits: ONE_BITS }
    }

    /// True when this is a NaN.
    pub fn is_nan(self) -> (r: bool)
        ensures
            r == self.nan(),
    {
        if self.bits < SIGN_BIT {
            self.bits > INFINITY_BITS
        } else {
            self.bits - SIGN_BIT > INFINITY_BITS
        }
    }

    /// `self < other`.
    pub fn lt(self, other: Self) -> (r: bool)
        ensures
            r == self.below(other),
    {
        if self.is_nan() || other.is_nan() {
            false
        } else if self.bits < SIGN_BIT {
            other.bits < SIGN_BIT && self.bits < other.bits
        } else if other.bits < SIGN_BIT {
            // Only two zeros of opposite sign are equal here.
            self.bits != SIGN_BIT || other.bits != 0
        } else {
            other.bits < self.bits
        }
    }

    /// `self <= other`.
    pub fn le(self, other: Self) -> (r: bool)
        ensures
            r == self.at_most(other),
    {
        !self.is_nan() && !other.is_nan() && !other.lt(self)
    }

    /// Restrict to `[min, max]`; a NaN stays a NaN.
    pub fn clamp(self, min: Self, max: Self) -> (r: Self)
        requires
            min.at_most(max),
        ensures
            r == self.restricted(min, max),
    {
        if self.lt(min) {
            min
        } else if max.lt(self) {
            max
        } else {
            self
        }
    }

    /// Restrict to `[0, 1]`; a NaN stays a NaN.
    pub fn clamp_unit(self) -> (r: Self)
        ensures
            r == self.restricted(Binary64 { bits: 0 }, Binary64 { bits: ONE_BITS }),
            !self.nan() ==> r.in_unit(),
            self.nan() ==> r == self,
    {
        self.clamp(Binary64::zero(), Binary64::one())
    }

    /// The whole part of this number as an integer: zero for a NaN or a negative number, and
    /// `u64::MAX` for a number too large.
    pub fn truncate(self) -> (r: u64)
        ensures
            r == if self.nan() || self.rank() < 0 {
                0
            } else if self.whole_part() > u64::MAX {
                u64::MAX as int
            } else {
                self.whole_part() as int
            },
    {
        if self.is_nan() || self.bits >= SIGN_BIT {
            assert(self.rank() == 0 ==> self.whole_part() == 0);
            return 0;
        }
        let bits: u64 = self.bits;
        assert(bits >> 52 == bits / 0x0010_0000_0000_0000 && bits & 0x000F_FFFF_FFFF_FFFF == bits
            % 0x0010_0000_0000_0000) by (bit_vector);
        let exponent: u64 = bits >> 52;
        let significand: u64 = LEADING_BIT + (bits & 0x000F_FFFF_FFFF_FFFF);
        if exponent < 1023 {
            0
        } else if exponent <= 1075 {
            proof {
                vstd::bits::lemma_u64_shr_is_div(significand, (1075 - exponent) as u64);
                vstd::arithmetic::power2::lemma_pow2_pos((1075 - exponent) as nat);
                vstd::arithmetic::div_mod::lemma_div_is_ordered_by_denominator(
                    significand as int,
                    1,
                    vstd::arithmetic::power2::pow2((1075 - exponent) as nat) as int,
                );
            }
            significand >> (1075 - exponent)
        } else if exponent <= 1086 {
            proof {
                vstd::arithmetic::power2::lemma2_to64();
                let scale = vstd::arithmetic::power2::pow2((exponent - 1075) as nat);
                assert(scale <= 2048);
                assert(significand * scale <= u64::MAX) by (nonlinear_arith)
                    requires
                        significand < 0x0020_0000_0000_0000,
                        scale <= 2048,
                ;
                vstd::bits::lemma_u64_shl_is_mul(significand, (exponent - 1075) as u64);
            }
            significand << (exponent - 1075)
        } else {
            proof {
                vstd::arithmetic::power2::lemma2_to64();
                vstd::arithmetic::power2::lemma_pow2_adds(12, (exponent - 1087) as nat);
                vstd::arithmetic::power2::lemma_pow2_pos((exponent - 1087) as nat);
                let rest = vstd::arithmetic::power2::pow2((exponent - 1087) as nat);
                assert(significand * (4096 * rest) > u64::MAX) by (nonlinear_arith)
                    requires
                        significand >= 0x0010_0000_0000_0000,
                        rest >= 1,
                ;
            }
            u64::MAX
        }
    }
}

/// Two doubles compare as the numbers do that they stand for. Among patterns without the sign bit
/// the larger one is the larger number, among patterns with it the smaller number; a number with
/// the sign bit is below one without it, but for the two zeros, which are equal; and a NaN, a
/// pattern beyond that of infinity, is ordered against nothing.
pub proof fn law_order_of_doubles(a: Binary64, b: Binary64)
    ensures
        a.nan() <==> 0x7FF0_0000_0000_0000 < a.bits < 0x8000_0000_0000_0000 || a.bits
            > 0xFFF0_0000_0000_0000,
        a.nan() || b.nan() ==> !a.below(b) && !a.at_most(b),
        !a.nan() && !b.nan() && a.bits < 0x8000_0000_0000_0000 && b.bits < 0x8000_0000_0000_0000
            ==> (a.below(b) <==> a.bits < b.bits) && (a.at_most(b) <==> a.bits <= b.bits),
        !a.nan() && !b.nan() && a.bits >= 0x8000_0000_0000_0000 && b.bits >= 0x8000_0000_0000_0000
            ==> (a.below(b) <==> a.bits > b.bits) && (a.at_most(b) <==> a.bits >= b.bits),
        !a.nan() && !b.nan() && a.bits >= 0x8000_0000_0000_0000 && b.bits < 0x8000_0000_0000_0000
            ==> a.at_most(b) && (a.below(b) <==> a.bits != 0x8000_0000_0000_0000 || b.bits != 0),
        !a.nan() && !b.nan() && a.bits < 0x8000_0000_0000_0000 && b.bits >= 0x8000_0000_0000_0000
            ==> !a.below(b) && (a.at_most(b) <==> a.bits == 0 && b.bits == 0x8000_0000_0000_0000),
{
}

/// Of two numbers one is below the other, or each is at most the other; and what is below a number
/// is below whatever that number is at most.
pub proof fn law_order_is_total(a: Binary64, b: Binary64, c: Binary64)
    requires
        !a.nan(),
        !b.nan(),
    ensures
        a.below(b) <==> !b.at_most(a),
        a.below(b) ==> !b.below(a),
        !a.below(a),
        a.below(b) && b.at_most(c) ==> a.below(c),
        a.at_most(b) && b.below(c) ==> a.below(c),
{
}

/// Restricted to an interval, a number inside stays what it is, and one outside becomes the end
/// that it lies beyond. A NaN stays a NaN.
pub proof fn law_restricted_to_the_interval(x: Binary64, min: Binary64, max: Binary64)
    requires
        min.at_most(max),
    ensures
        x.nan() ==> x.restricted(min, max) == x,
        !x.nan() ==> min.at_most(x.restricted(min, max)) && x.restricted(min, max).at_most(max),
        min.at_most(x) && x.at_most(max) ==> x.restricted(min, max) == x,
        x.below(min) ==> x.restricted(min, max) == min,
        max.below(x) ==> x.restricted(min, max) == max,
{
}

/// The whole part of a number is the greatest integer that does not exceed it. With an exponent
/// field of `e` and the lower 52 bits `m`, the number is `(2^52 + m) * 2^(e - 1075)`.
pub proof fn law_whole_part_is_the_floor(x: Binary64)
    requires
        0x0010_0000_0000_0000 <= x.bits < 0x7FF0_0000_0000_0000,
    ensures
        ({
            let e = x.bits as int / 0x0010_0000_0000_0000;
            let m = 0x0010_0000_0000_0000 + x.bits as int % 0x0010_0000_0000_0000;
            let n = x.whole_part();
            &&& e < 1023 ==> n == 0
            &&& 1023 <= e <= 1075 ==> n * vstd::arithmetic::power2::pow2((1075 - e) as nat) <= m
                < (n + 1) * vstd::arithmetic::power2::pow2((1075 - e) as nat)
            &&& e > 1075 ==> n == m * vstd::arithmetic::power2::pow2((e - 1075) as nat)
        }),
{
    let e = x.bits as int / 0x0010_0000_0000_0000;
    let m = 0x0010_0000_0000_0000 + x.bits as int % 0x0010_0000_0000_0000;
    if 1023 <= e <= 1075 {
        let unit = vstd::arithmetic::power2::pow2((1075 - e) as nat) as int;
        vstd::arithmetic::power2::lemma_pow2_pos((1075 - e) as nat);
        vstd::arithmetic::div_mod::lemma_fundamental_div_mod(m, unit);
        vstd::arithmetic::div_mod::lemma_mod_bound(m, unit);
        let n = x.whole_part() as int;
        assert(n == m / unit);
        assert(n * unit == unit * n) by (nonlinear_arith);
        assert((n + 1) * unit == unit * n + unit) by (nonlinear_arith);
    }
}

/// Below 1.0 nothing is left of a number but zero.
pub proof fn law_fractions_truncate_to_zero(x: Binary64)
    requires
        x.bits < 0x3FF0_0000_0000_0000,
    ensures
        x.whole_part() == 0,
{
}

} // verus!
