//! IEEE 754 binary64 values, held by their bit patterns.
//!
//! A pattern has a sign bit, an 11-bit exponent field and a 52-bit fraction
//! field. Its numeric value is modelled exactly as an integer multiple of
//! 2^-1074, the smallest positive subnormal.

use vstd::prelude::*;
use vstd::arithmetic::power2::{pow2, lemma_pow2_pos, lemma_pow2_unfold, lemma_pow2_strictly_increases};

verus! {

/// Weight of the sign bit: 2^63.
pub const SIGN_BIT: u64 = 0x8000_0000_0000_0000;

/// Number of distinct fraction fields: 2^52.
pub const FRACTION_SPAN: u64 = 0x0010_0000_0000_0000;

/// Pattern of positive infinity: exponent field all ones, fraction zero.
pub const INFINITY_BITS: u64 = 0x7ff0_0000_0000_0000;

/// Pattern of the value one.
pub const ONE_BITS: u64 = 0x3ff0_0000_0000_0000;

/// A binary64 value, identified with its 64-bit pattern.
#[derive(Clone, Copy, Debug, PartialEq, Eq, Structural)]
pub struct Binary64 {
    pub bits: u64,
}

impl Binary64 {
    /// The sign bit is set.
    pub open spec fn negative(self) -> bool {
        self.bits >= SIGN_BIT
    }

    /// The exponent field, between 0 and 2047.
    pub open spec fn exponent(self) -> nat {
        ((self.bits / FRACTION_SPAN) % 2048) as nat
    }

    /// The fraction field, below 2^52.
    pub open spec fn fraction(self) -> nat {
        (self.bits % FRACTION_SPAN) as nat
    }

    /// Not a number.
    pub open spec fn nan(self) -> bool {
        self.exponent() == 2047 && self.fraction() != 0
    }

    /// Positive or negative infinity.
    pub open spec fn infinite(self) -> bool {
        self.exponent() == 2047 && self.fraction() == 0
    }

    /// Neither NaN nor infinite.
    pub open spec fn finite(self) -> bool {
        self.exponent() < 2047
    }

    /// The absolute value in units of 2^-1074. For an infinity it exceeds the
    /// magnitude of every finite value; for a NaN it has no meaning.
    pub open spec fn magnitude(self) -> nat {
        if self.exponent() == 0 {
            self.fraction()
        } else {
            (FRACTION_SPAN as nat + self.fraction()) * pow2((self.exponent() - 1) as nat)
        }
    }

    /// The signed value in units of 2^-1074.
    pub open spec fn scaled(self) -> int {
        if self.negative() {
            -(self.magnitude() as int)
        } else {
            self.magnitude() as int
        }
    }

    /// Numeric `<=`: false as soon as one side is NaN; both zeros are equal.
    pub open spec fn le(self, other: Binary64) -> bool {
        !self.nan() && !other.nan() && self.scaled() <= other.scaled()
    }

    /// Numeric `> 0`: false for NaN, true for positive infinity.
    pub open spec fn positive(self) -> bool {
        !self.nan() && self.scaled() > 0
    }

    /// Numeric `== 0`: true of both zeros, false for NaN.
    pub open spec fn zero_valued(self) -> bool {
        !self.nan() && self.scaled() == 0
    }

    /// The larger of two values. A NaN yields to the other side; of two
    /// equal values the second is taken.
    pub open spec fn larger(self, other: Binary64) -> Binary64 {
        if self.nan() {
            other
        } else if other.nan() {
            self
        } else if self.scaled() <= other.scaled() {
            other
        } else {
            self
        }
    }

    /// Lies in the closed interval from zero to one.
    pub open spec fn in_unit_interval(self) -> bool {
        !self.nan() && 0 <= self.scaled() <= unit()
    }

    /// The pattern without its sign bit.
    pub open spec fn abs_bits(self) -> nat {
        (self.bits % SIGN_BIT) as nat
    }

    /// The value with the given pattern.
    pub fn from_bits(bits: u64) -> (value: Binary64)
        ensures
            value.bits == bits,
    {
        Binary64 { bits }
    }

    /// The pattern of the value.
    pub fn to_bits(self) -> (bits: u64)
        ensures
            bits == self.bits,
    {
        self.bits
    }

    /// Positive zero.
    pub fn zero() -> (value: Binary64)
        ensures
            value.bits == 0,
            !value.nan(),
            value.scaled() == 0,
    {
        Binary64 { bits: 0 }
    }

    /// The value one.
    pub fn one() -> (value: Binary64)
        ensures
            value.bits == ONE_BITS,
            !value.nan(),
            value.scaled() == unit(),
    {
        proof {
            lemma_one_is_unit();
        }
        Binary64 { bits: ONE_BITS }
    }

    /// Not a number.
    pub fn is_nan(self) -> (r: bool)
        ensures
            r == self.nan(),
    {
        proof {
            lemma_fields(self);
        }
        self.bits % SIGN_BIT > INFINITY_BITS
    }

    /// Neither NaN nor infinite.
    pub fn is_finite(self) -> (r: bool)
        ensures
            r == self.finite(),
    {
        proof {
            lemma_fields(self);
        }
        self.bits % SIGN_BIT < INFINITY_BITS
    }

    /// The sign bit is set: true of negative zero too.
    pub fn is_sign_negative(self) -> (r: bool)
        ensures
            r == self.negative(),
    {
        self.bits >= SIGN_BIT
    }

    /// Numeric `== 0`: true of both zeros.
    pub fn is_zero(self) -> (r: bool)
        ensures
            r == self.zero_valued(),
    {
        proof {
            lemma_fields(self);
            lemma_magnitude_zero(self);
        }
        self.bits % SIGN_BIT == 0
    }

    /// Numeric `> 0`.
    pub fn is_positive(self) -> (r: bool)
        ensures
            r == self.positive(),
    {
        proof {
            lemma_fields(self);
            lemma_magnitude_zero(self);
        }
        0 < self.bits && self.bits <= INFINITY_BITS
    }

    /// Numeric `self <= other`.
    pub fn at_most(self, other: Binary64) -> (r: bool)
        ensures
            r == self.le(other),
    {
        if self.is_nan() || other.is_nan() {
            return false;
        }
        let a: u64 = self.bits % SIGN_BIT;
        let b: u64 = other.bits % SIGN_BIT;
        proof {
            lemma_magnitude_order(self, other);
            lemma_magnitude_order(other, self);
            lemma_magnitude_zero(self);
            lemma_magnitude_zero(other);
        }
        if self.bits >= SIGN_BIT {
            if other.bits >= SIGN_BIT {
                b <= a
            } else {
                true
            }
        } else {
            if other.bits >= SIGN_BIT {
                a == 0 && b == 0
            } else {
                a <= b
            }
        }
    }

    /// The larger of two values, ignoring a NaN on one side.
    pub fn max(self, other: Binary64) -> (r: Binary64)
        ensures
            r == self.larger(other),
    {
        if self.is_nan() {
            other
        } else if other.is_nan() {
            self
        } else if self.at_most(other) {
            other
        } else {
            self
        }
    }
}

/// The value one in units of 2^-1074.
pub open spec fn unit() -> int {
    pow2(1074) as int
}

/// The fields of a pattern, read off the pattern without its sign bit.
pub proof fn lemma_fields(x: Binary64)
    ensures
        x.exponent() == x.abs_bits() / (FRACTION_SPAN as nat),
        x.fraction() == x.abs_bits() % (FRACTION_SPAN as nat),
        x.abs_bits() == x.exponent() * FRACTION_SPAN + x.fraction(),
        x.exponent() < 2048,
        x.fraction() < FRACTION_SPAN,
        x.nan() <==> x.abs_bits() > INFINITY_BITS,
        x.infinite() <==> x.abs_bits() == INFINITY_BITS,
        x.finite() <==> x.abs_bits() < INFINITY_BITS,
{
    let b: u64 = x.bits;
    assert((b / 0x0010_0000_0000_0000) % 2048 == (b % 0x8000_0000_0000_0000)
        / 0x0010_0000_0000_0000) by (bit_vector);
    assert(b % 0x0010_0000_0000_0000 == (b % 0x8000_0000_0000_0000) % 0x0010_0000_0000_0000)
        by (bit_vector);
}

/// A magnitude is zero exactly for the two zero patterns.
pub proof fn lemma_magnitude_zero(x: Binary64)
    ensures
        x.magnitude() == 0 <==> x.abs_bits() == 0,
{
    lemma_fields(x);
    if x.exponent() != 0 {
        let p = pow2((x.exponent() - 1) as nat);
        lemma_pow2_pos((x.exponent() - 1) as nat);
        assert((FRACTION_SPAN as nat + x.fraction()) * p > 0) by (nonlinear_arith)
            requires
                p > 0,
                FRACTION_SPAN as nat + x.fraction() > 0,
        ;
    }
}

/// Magnitudes are ordered as the patterns without their sign bits are.
pub proof fn lemma_magnitude_order(x: Binary64, y: Binary64)
    ensures
        x.abs_bits() < y.abs_bits() ==> x.magnitude() < y.magnitude(),
        x.abs_bits() == y.abs_bits() ==> x.magnitude() == y.magnitude(),
{
    lemma_fields(x);
    lemma_fields(y);
    if x.abs_bits() < y.abs_bits() {
        let ex = x.exponent();
        let ey = y.exponent();
        let fx = x.fraction();
        let fy = y.fraction();
        let span = FRACTION_SPAN as nat;
        assert(ex <= ey);
        if ex == ey {
            if ex != 0 {
                let p = pow2((ex - 1) as nat);
                lemma_pow2_pos((ex - 1) as nat);
                assert((span + fx) * p < (span + fy) * p) by (nonlinear_arith)
                    requires
                        p > 0,
                        fx < fy,
                ;
            }
        } else {
            // Below the next binade: magnitude(x) < 2^52 * 2^ex <= magnitude(y).
            let q = pow2((ey - 1) as nat);
            lemma_pow2_pos((ey - 1) as nat);
            lemma_pow2_pos(ex);
            if ex < ey - 1 {
                lemma_pow2_strictly_increases(ex, (ey - 1) as nat);
            }
            assert(pow2(ex) <= q);
            assert(span * pow2(ex) <= (span + fy) * q) by (nonlinear_arith)
                requires
                    0 < pow2(ex) <= q,
                    span > 0,
                    fy >= 0,
            ;
            if ex == 0 {
                assert(pow2(0) == 1) by {
                    vstd::arithmetic::power2::lemma2_to64();
                }
                assert(span * pow2(ex) == span) by (nonlinear_arith)
                    requires
                        pow2(ex) == 1,
                ;
            } else {
                let p = pow2((ex - 1) as nat);
                lemma_pow2_unfold(ex);
                lemma_pow2_pos((ex - 1) as nat);
                assert((span + fx) * p < span * (2 * p)) by (nonlinear_arith)
                    requires
                        p > 0,
                        fx < span,
                ;
            }
        }
    }
}

/// The pattern `ONE_BITS` has the value one.
pub proof fn lemma_one_is_unit()
    ensures
        !(Binary64 { bits: ONE_BITS }).nan(),
        !(Binary64 { bits: ONE_BITS }).negative(),
        (Binary64 { bits: ONE_BITS }).scaled() == unit(),
{
    let one = Binary64 { bits: ONE_BITS };
    assert(one.exponent() == 1023);
    assert(one.fraction() == 0);
    vstd::arithmetic::power2::lemma_pow2_adds(52, 1022);
    vstd::arithmetic::power2::lemma2_to64_rest();
    assert(pow2(52) == 0x0010_0000_0000_0000);
}

} // verus!
