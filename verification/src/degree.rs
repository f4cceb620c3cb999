//! Degree reduction: from an angle in degrees to an index of the table.
//!
//! The angle is rounded to the nearest whole degree, a tie going away from
//! zero, and the whole degree is reduced modulo a full turn to `0..360`.

use vstd::prelude::*;
use vstd::arithmetic::div_mod::*;
use vstd::arithmetic::mul::*;
use vstd::arithmetic::power2::*;
use vstd::bits::*;
use crate::binary64::{Binary64, HIDDEN_BIT, SIGN_BIT};

verus! {

/// Whole degrees in a full turn.
pub const FULL_TURN: u64 = 360;

/// The integer nearest to `num / den`, the greater one of two that are equally
/// near: the floor of `num / den + 1/2`.
pub open spec fn nearest_integer(num: nat, den: nat) -> nat {
    (2 * num + den) / (2 * den)
}

/// The magnitude of a finite value, rounded to the nearest integer, a tie going
/// to the greater one.
pub open spec fn rounded_magnitude(value: Binary64) -> nat {
    if value.exponent() >= 0 {
        value.significand() * pow2(value.exponent() as nat)
    } else {
        nearest_integer(value.significand(), pow2((-value.exponent()) as nat))
    }
}

/// A finite value rounded to the nearest integer, a tie going away from zero.
pub open spec fn rounded(value: Binary64) -> int {
    if value.sign() {
        -(rounded_magnitude(value) as int)
    } else {
        rounded_magnitude(value) as int
    }
}

/// The table index of an angle in degrees.
///
/// A finite angle is rounded and reduced modulo 360 to `0..360`.  Positive
/// infinity is indexed as the greatest `usize` is, and negative infinity and an
/// undefined angle as zero.
pub open spec fn index_of(angle: Binary64) -> int {
    if angle.finite() {
        rounded(angle) % 360
    } else if angle.infinite() && !angle.sign() {
        usize::MAX as int % 360
    } else {
        0
    }
}

/// `nearest_integer(num, den)` is within one half of `num / den`, and is the
/// greater integer where two are at one half.
pub proof fn lemma_nearest_integer_is_nearest(num: nat, den: nat)
    requires
        den > 0,
    ensures
        2 * den * nearest_integer(num, den) - den <= 2 * num,
        2 * num < 2 * den * nearest_integer(num, den) + den,
{
    let r = nearest_integer(num, den);
    lemma_fundamental_div_mod((2 * num + den) as int, (2 * den) as int);
    lemma_mod_bound((2 * num + den) as int, (2 * den) as int);
    assert(2 * den * r == (2 * den) * ((2 * num + den) as int / (2 * den) as int));
}

/// A finite value whose exponent is at most -54 is below one half in magnitude
/// and rounds to zero.
pub proof fn lemma_rounded_magnitude_small(value: Binary64)
    requires
        value.finite(),
        value.exponent() <= -54,
    ensures
        rounded_magnitude(value) == 0,
{
    let k = (-value.exponent()) as nat;
    lemma2_to64_rest();
    if k > 54 {
        lemma_pow2_strictly_increases(54, k);
    }
    let den = pow2(k);
    let num = value.significand();
    assert(pow2(54) == 0x40_0000_0000_0000);
    assert(2 * num < den);
    lemma_small_div_converse((2 * num + den) as int, (2 * den) as int);
    lemma_fundamental_div_mod((2 * num + den) as int, (2 * den) as int);
    lemma_mod_bound((2 * num + den) as int, (2 * den) as int);
    let q = (2 * num + den) as int / (2 * den) as int;
    assert((2 * den) * q <= 2 * num + den);
    if q >= 1 {
        lemma_mul_inequality(1, q, (2 * den) as int);
        lemma_mul_is_commutative(q, (2 * den) as int);
    }
}

/// The rounded magnitude of a finite value is the value itself where its
/// exponent is not negative, and otherwise the integer within one half of
/// `significand / 2^-exponent`, the greater one where two are at one half.
pub proof fn lemma_rounded_magnitude_is_nearest(value: Binary64)
    requires
        value.finite(),
    ensures
        value.exponent() >= 0 ==> rounded_magnitude(value) == value.significand() * pow2(
            value.exponent() as nat,
        ),
        value.exponent() < 0 ==> 2 * pow2((-value.exponent()) as nat) * rounded_magnitude(value)
            - pow2((-value.exponent()) as nat) <= 2 * value.significand(),
        value.exponent() < 0 ==> 2 * value.significand() < 2 * pow2((-value.exponent()) as nat)
            * rounded_magnitude(value) + pow2((-value.exponent()) as nat),
{
    if value.exponent() < 0 {
        lemma_pow2_pos((-value.exponent()) as nat);
        lemma_nearest_integer_is_nearest(value.significand(), pow2((-value.exponent()) as nat));
    }
}

/// Rounding treats both signs alike: two finite values that differ in the sign
/// bit alone round to opposite integers, and their indices add up to a full
/// turn.
pub proof fn lemma_rounded_of_negation(value: Binary64, negated: Binary64)
    requires
        value.finite(),
        !value.sign(),
        negated.bits == value.bits + SIGN_BIT,
    ensures
        negated.finite(),
        negated.sign(),
        rounded(negated) == -rounded(value),
        index_of(negated) == (360 - index_of(value)) % 360,
{
    assert(negated.exponent_field() == value.exponent_field());
    assert(negated.fraction() == value.fraction());
}

/// Angles whose whole degrees differ by full turns share one index, which lies
/// in `0..360`.
pub proof fn lemma_index_periodic(first: Binary64, second: Binary64, turns: int)
    requires
        first.finite(),
        second.finite(),
        rounded(second) == rounded(first) + 360 * turns,
    ensures
        index_of(first) == index_of(second),
        0 <= index_of(first) < 360,
{
    lemma_mod_multiples_vanish(turns, rounded(first), 360);
    lemma_mul_is_commutative(360, turns);
}

/// The index of every angle lies in `0..360`.
pub proof fn lemma_index_in_table(angle: Binary64)
    ensures
        0 <= index_of(angle) < 360,
{
}

/// `(value * 2^doublings) mod 360`.
fn scaled_residue(value: u64, doublings: u64) -> (residue: u64)
    ensures
        residue == (value * pow2(doublings as nat)) % 360,
        residue < 360,
{
    let mut residue: u64 = value % FULL_TURN;
    let mut done: u64 = 0;
    proof {
        lemma2_to64();
    }
    while done < doublings
        invariant
            done <= doublings,
            residue < 360,
            residue == (value * pow2(done as nat)) % 360,
        decreases doublings - done,
    {
        proof {
            let before = value * pow2(done as nat);
            lemma_pow2_unfold((done + 1) as nat);
            assert(value * pow2((done + 1) as nat) == 2 * before) by {
                lemma_mul_is_associative(value as int, 2, pow2(done as nat) as int);
                lemma_mul_is_commutative(value as int, 2);
                lemma_mul_is_associative(2, value as int, pow2(done as nat) as int);
            }
            lemma_mul_mod_noop_right(2, before, 360);
        }
        residue = (residue * 2) % FULL_TURN;
        done = done + 1;
    }
    residue
}

/// `significand / 2^shift`, rounded to the nearest integer, a tie going to the
/// greater one.
fn round_shifted(significand: u64, shift: u64) -> (nearest: u64)
    requires
        significand < 2 * HIDDEN_BIT,
        1 <= shift <= 53,
    ensures
        nearest == nearest_integer(significand as nat, pow2(shift as nat)),
        nearest <= HIDDEN_BIT,
{
    let half: u64 = 1u64 << (shift - 1);
    proof {
        lemma2_to64();
        lemma2_to64_rest();
        let h = pow2((shift - 1) as nat);
        if shift - 1 < 52 {
            lemma_pow2_strictly_increases((shift - 1) as nat, 52);
        }
        assert(h <= 0x10_0000_0000_0000);
        lemma_u64_shl_is_mul(1, (shift - 1) as u64);
        assert(half == h);
        lemma_pow2_unfold(shift as nat);
        lemma_pow2_pos((shift - 1) as nat);
        lemma_u64_shr_is_div((significand + half) as u64, shift);
        // (2 * (significand + h)) / (2 * (2 * h)) == (significand + h) / (2 * h)
        lemma_div_multiples_vanish_quotient(2, (significand + h) as int, (2 * h) as int);
        assert(2 * significand + pow2(shift as nat) == 2 * (significand + h));
        // the quotient is at most 2^52
        lemma_fundamental_div_mod((significand + h) as int, (2 * h) as int);
        lemma_mod_bound((significand + h) as int, (2 * h) as int);
        let q = (significand + h) as int / (2 * h) as int;
        assert(q <= 0x10_0000_0000_0000) by (nonlinear_arith)
            requires
                (2 * h) * q <= significand + h,
                significand < 0x20_0000_0000_0000,
                h >= 1,
        ;
    }
    (significand + half) >> shift
}

/// The magnitude of a finite value, rounded and reduced modulo 360.
fn magnitude_residue(value: Binary64) -> (residue: u64)
    requires
        value.finite(),
    ensures
        residue == rounded_magnitude(value) % 360,
        residue < 360,
{
    let field = value.exponent_bits();
    let significand = value.significand_bits();
    if field >= 1075 {
        scaled_residue(significand, field - 1075)
    } else {
        let shift: u64 = if field == 0 {
            1074
        } else {
            1075 - field
        };
        if shift >= 54 {
            proof {
                lemma_rounded_magnitude_small(value);
            }
            0
        } else {
            round_shifted(significand, shift) % FULL_TURN
        }
    }
}

/// The table index of an angle in degrees: the angle rounded to the nearest
/// whole degree, a tie going away from zero, and reduced modulo 360.
pub fn degree_index(angle: Binary64) -> (index: usize)
    ensures
        index == index_of(angle),
        index < 360,
{
    if !angle.is_finite() {
        if angle.is_infinite() && angle.is_sign_positive() {
            return usize::MAX % 360;
        }
        return 0;
    }
    let residue = magnitude_residue(angle);
    if angle.is_sign_negative() && residue != 0 {
        (FULL_TURN - residue) as usize
    } else {
        residue as usize
    }
}

} // verus!
