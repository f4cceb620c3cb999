//! Double-precision values as bit patterns.
//!
//! A value is carried as the 64 bits of its IEEE 754 binary64 encoding: one sign
//! bit, eleven exponent bits and fifty-two fraction bits.  Every finite value is
//! `(-1)^sign * significand * 2^exponent` with a natural `significand` below
//! `2^53` and an integer `exponent` from `-1074` to `971`; the specifications of
//! this crate speak of values through that pair.

use vstd::prelude::*;

verus! {

/// Where the sign bit stands: `2^63`.
pub const SIGN_BIT: u64 = 0x8000_0000_0000_0000;

/// The hidden bit of a normal significand, and the modulus of the fraction: `2^52`.
pub const HIDDEN_BIT: u64 = 0x10_0000_0000_0000;

/// The exponent field of infinities and of undefined values.
pub const EXPONENT_SPECIAL: u64 = 2047;

/// The bit pattern of positive infinity.
pub const POSITIVE_INFINITY_BITS: u64 = 0x7FF0_0000_0000_0000;

/// The bit pattern of negative infinity.
pub const NEGATIVE_INFINITY_BITS: u64 = 0xFFF0_0000_0000_0000;

/// A double-precision value, held as its bit pattern.
#[derive(Clone, Copy, Debug, PartialEq, Eq, Structural)]
pub struct Binary64 {
    pub bits: u64,
}

impl Binary64 {
    /// Whether the sign bit is set.
    pub open spec fn sign(self) -> bool {
        self.bits >= SIGN_BIT
    }

    /// The eleven exponent bits, as a number from 0 to 2047.
    pub open spec fn exponent_field(self) -> nat {
        ((self.bits % SIGN_BIT) / HIDDEN_BIT) as nat
    }

    /// The fifty-two fraction bits, as a number below `2^52`.
    pub open spec fn fraction(self) -> nat {
        (self.bits % HIDDEN_BIT) as nat
    }

    /// The value is a number, possibly zero, and not an infinity.
    pub open spec fn finite(self) -> bool {
        self.exponent_field() < EXPONENT_SPECIAL
    }

    /// The value is positive or negative infinity.
    pub open spec fn infinite(self) -> bool {
        self.exponent_field() == EXPONENT_SPECIAL && self.fraction() == 0
    }

    /// The pattern encodes no value at all.
    pub open spec fn nan(self) -> bool {
        self.exponent_field() == EXPONENT_SPECIAL && self.fraction() != 0
    }

    /// The integer `m` of a finite value `(-1)^sign * m * 2^exponent`.
    pub open spec fn significand(self) -> nat {
        if self.exponent_field() == 0 {
            self.fraction()
        } else {
            HIDDEN_BIT as nat + self.fraction()
        }
    }

    /// The integer `e` of a finite value `(-1)^sign * significand * 2^e`.
    pub open spec fn exponent(self) -> int {
        if self.exponent_field() == 0 {
            -1074
        } else {
            self.exponent_field() - 1075
        }
    }

    /// The value is a zero, of either sign.
    pub open spec fn zero(self) -> bool {
        self.finite() && self.significand() == 0
    }

    /// The comparison `self >= 0` of the IEEE 754 order: false of an undefined
    /// value, true of both zeros and of positive infinity.
    pub open spec fn at_least_zero(self) -> bool {
        !self.nan() && (!self.sign() || self.zero())
    }

    /// Wraps a bit pattern.
    pub fn from_bits(bits: u64) -> (value: Binary64)
        ensures
            value.bits == bits,
    {
        Binary64 { bits }
    }

    /// The bit pattern.
    pub fn to_bits(self) -> (bits: u64)
        ensures
            bits == self.bits,
    {
        self.bits
    }

    /// Positive infinity.
    pub fn positive_infinity() -> (value: Binary64)
        ensures
            value.bits == POSITIVE_INFINITY_BITS,
            value.infinite(),
            !value.sign(),
    {
        Binary64 { bits: POSITIVE_INFINITY_BITS }
    }

    /// Negative infinity.
    pub fn negative_infinity() -> (value: Binary64)
        ensures
            value.bits == NEGATIVE_INFINITY_BITS,
            value.infinite(),
            value.sign(),
    {
        Binary64 { bits: NEGATIVE_INFINITY_BITS }
    }

    /// The exponent bits.
    pub fn exponent_bits(self) -> (field: u64)
        ensures
            field == self.exponent_field(),
            field <= EXPONENT_SPECIAL,
    {
        (self.bits % SIGN_BIT) / HIDDEN_BIT
    }

    /// The fraction bits.
    pub fn fraction_bits(self) -> (fraction: u64)
        ensures
            fraction == self.fraction(),
            fraction < HIDDEN_BIT,
    {
        self.bits % HIDDEN_BIT
    }

    /// Whether the sign bit is set; true of negative zero too.
    pub fn is_sign_negative(self) -> (negative: bool)
        ensures
            negative == self.sign(),
    {
        self.bits >= SIGN_BIT
    }

    /// Whether the sign bit is clear; true of positive zero too.
    pub fn is_sign_positive(self) -> (positive: bool)
        ensures
            positive == !self.sign(),
    {
        self.bits < SIGN_BIT
    }

    /// Whether the value is neither an infinity nor undefined.
    pub fn is_finite(self) -> (finite: bool)
        ensures
            finite == self.finite(),
    {
        self.exponent_bits() < EXPONENT_SPECIAL
    }

    /// Whether the value is an infinity.
    pub fn is_infinite(self) -> (infinite: bool)
        ensures
            infinite == self.infinite(),
    {
        self.exponent_bits() == EXPONENT_SPECIAL && self.fraction_bits() == 0
    }

    /// Whether the pattern encodes no value.
    pub fn is_nan(self) -> (nan: bool)
        ensures
            nan == self.nan(),
    {
        self.exponent_bits() == EXPONENT_SPECIAL && self.fraction_bits() != 0
    }

    /// The significand of a finite value.
    pub fn significand_bits(self) -> (significand: u64)
        ensures
            significand == self.significand(),
            significand < 2 * HIDDEN_BIT,
    {
        if self.exponent_bits() == 0 {
            self.fraction_bits()
        } else {
            HIDDEN_BIT + self.fraction_bits()
        }
    }

    /// The comparison `self >= 0`.
    pub fn is_at_least_zero(self) -> (result: bool)
        ensures
            result == self.at_least_zero(),
    {
        self.bits <= POSITIVE_INFINITY_BITS || self.bits == SIGN_BIT
    }
}

} // verus!
