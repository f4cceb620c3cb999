//! The asymptote guard: where the cosine is nearly zero the tangent is a signed
//! infinity, and no division takes place.

use vstd::prelude::*;
use vstd::arithmetic::power2::*;
use crate::binary64::{
    Binary64, HIDDEN_BIT, NEGATIVE_INFINITY_BITS, POSITIVE_INFINITY_BITS, SIGN_BIT,
};

verus! {

/// The bit pattern of the double-precision value nearest to `10^-10`, which is
/// the least one that is not below `10^-10`.
pub const EPSILON_BITS: u64 = 0x3DDB_7CDF_D9D7_BDBB;

/// The reciprocal of the guard's bound: a cosine is nearly zero where its
/// magnitude times this is below one.
pub const EPSILON_RECIPROCAL: u64 = 10_000_000_000;

/// How the tangent of a table entry is obtained.
#[derive(Clone, Copy, Debug, PartialEq, Eq, Structural)]
pub enum Tangent {
    /// The cosine is nearly zero and the sine is not negative.
    PositiveInfinity,
    /// The cosine is nearly zero and the sine is negative.
    NegativeInfinity,
    /// The sine divided by the cosine.
    Quotient,
}

/// The magnitude of the value is below `10^-10`: the value is finite and
/// `significand * 2^exponent * 10^10 < 1`.
pub open spec fn below_epsilon(value: Binary64) -> bool {
    &&& value.finite()
    &&& value.exponent() < 0
    &&& value.significand() * EPSILON_RECIPROCAL < pow2((-value.exponent()) as nat)
}

/// The tangent that belongs to a sine and a cosine.
pub open spec fn tangent_of(sin: Binary64, cos: Binary64) -> Tangent {
    if below_epsilon(cos) {
        if sin.at_least_zero() {
            Tangent::PositiveInfinity
        } else {
            Tangent::NegativeInfinity
        }
    } else {
        Tangent::Quotient
    }
}

/// The value of a tangent, given the quotient of the sine by the cosine.
pub open spec fn tangent_value(tangent: Tangent, quotient: Binary64) -> Binary64 {
    match tangent {
        Tangent::PositiveInfinity => Binary64 { bits: POSITIVE_INFINITY_BITS },
        Tangent::NegativeInfinity => Binary64 { bits: NEGATIVE_INFINITY_BITS },
        Tangent::Quotient => quotient,
    }
}

/// How an infinite value is written: the infinity sign, after a minus sign
/// where the value is negative.  Any other value is written as a number.
pub open spec fn infinity_label(value: Binary64) -> Option<Seq<char>> {
    if !value.infinite() {
        None
    } else if value.sign() {
        Some("-\u{221e}"@)
    } else {
        Some("\u{221e}"@)
    }
}

/// The powers of two that the guard's bound lies between.
proof fn lemma_pow2_around_epsilon()
    ensures
        pow2(85) == 0x20_0000_0000_0000_0000_0000,
        pow2(86) == 0x40_0000_0000_0000_0000_0000,
        pow2(87) == 0x80_0000_0000_0000_0000_0000,
{
    lemma2_to64();
    lemma2_to64_rest();
    lemma_pow2_adds(64, 21);
    lemma_pow2_adds(64, 22);
    lemma_pow2_adds(64, 23);
    assert(pow2(64) * pow2(21) == 0x20_0000_0000_0000_0000_0000) by (nonlinear_arith)
        requires
            pow2(64) == 0x1_0000_0000_0000_0000,
            pow2(21) == 0x20_0000,
    ;
    assert(pow2(64) * pow2(22) == 0x40_0000_0000_0000_0000_0000) by (nonlinear_arith)
        requires
            pow2(64) == 0x1_0000_0000_0000_0000,
            pow2(22) == 0x40_0000,
    ;
    assert(pow2(64) * pow2(23) == 0x80_0000_0000_0000_0000_0000) by (nonlinear_arith)
        requires
            pow2(64) == 0x1_0000_0000_0000_0000,
            pow2(23) == 0x80_0000,
    ;
}

/// A magnitude is below `10^-10` exactly where its bit pattern, the sign bit
/// left out, is below that of the double-precision value nearest to `10^-10`.
pub proof fn lemma_below_epsilon_by_bits(value: Binary64)
    ensures
        below_epsilon(value) <==> value.bits % SIGN_BIT < EPSILON_BITS,
{
    let field = value.exponent_field();
    let fraction = value.fraction();
    let significand = value.significand();
    let magnitude = value.bits % SIGN_BIT;
    assert(magnitude == field * HIDDEN_BIT + fraction);
    lemma_pow2_around_epsilon();
    if field >= 2047 {
    } else if field < 989 {
        let k = (-value.exponent()) as nat;
        assert(k >= 87);
        if k > 87 {
            lemma_pow2_strictly_increases(87, k);
        }
        assert(significand * EPSILON_RECIPROCAL < pow2(k));
    } else if field == 989 {
        assert((-value.exponent()) as nat == 86);
    } else {
        if value.exponent() < 0 {
            let k = (-value.exponent()) as nat;
            assert(k <= 85);
            if k < 85 {
                lemma_pow2_strictly_increases(k, 85);
            }
            assert(significand * EPSILON_RECIPROCAL >= pow2(k));
        }
    }
}

/// Whether the magnitude of a value is below `10^-10`.
pub fn is_below_epsilon(value: Binary64) -> (below: bool)
    ensures
        below == below_epsilon(value),
{
    proof {
        lemma_below_epsilon_by_bits(value);
    }
    value.bits % SIGN_BIT < EPSILON_BITS
}

/// Decides the tangent that belongs to a sine and a cosine: a signed infinity
/// where the magnitude of the cosine is below `10^-10`, positive unless the
/// sine is negative, and the quotient everywhere else.
pub fn guarded_tangent(sin: Binary64, cos: Binary64) -> (tangent: Tangent)
    ensures
        tangent == tangent_of(sin, cos),
{
    if is_below_epsilon(cos) {
        if sin.is_at_least_zero() {
            Tangent::PositiveInfinity
        } else {
            Tangent::NegativeInfinity
        }
    } else {
        Tangent::Quotient
    }
}

/// The text for an infinite value, and `None` for a value that is written as a
/// number.
pub fn infinity_glyph(value: Binary64) -> (glyph: Option<&'static str>)
    ensures
        glyph is Some <==> value.infinite(),
        match glyph {
            Some(text) => infinity_label(value) == Some(text@),
            None => infinity_label(value) is None,
        },
{
    if !value.is_infinite() {
        None
    } else if value.is_sign_negative() {
        Some("-\u{221e}")
    } else {
        Some("\u{221e}")
    }
}

impl Tangent {
    /// The value of this tangent, given the quotient of the sine by the cosine:
    /// the quotient is passed on unless the guard has put an infinity in its
    /// place.
    pub fn resolve(self, quotient: Binary64) -> (value: Binary64)
        ensures
            value == tangent_value(self, quotient),
    {
        match self {
            Tangent::PositiveInfinity => Binary64::positive_infinity(),
            Tangent::NegativeInfinity => Binary64::negative_infinity(),
            Tangent::Quotient => quotient,
        }
    }
}

} // verus!
