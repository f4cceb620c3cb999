use trig_lookup::binary64::Binary64;
use trig_lookup::tangent::{
    guarded_tangent, infinity_glyph, is_below_epsilon, Tangent, EPSILON_BITS, EPSILON_RECIPROCAL,
};

fn bits(value: f64) -> Binary64 {
    Binary64::from_bits(value.to_bits())
}

fn expected_tangent(sin: f64, cos: f64) -> Tangent {
    if cos.abs() < 1e-10 {
        if sin >= 0.0 {
            Tangent::PositiveInfinity
        } else {
            Tangent::NegativeInfinity
        }
    } else {
        Tangent::Quotient
    }
}

fn samples() -> Vec<f64> {
    vec![
        0.0,
        -0.0,
        1.0,
        -1.0,
        0.5,
        -0.5,
        1e-10,
        -1e-10,
        f64::from_bits(1e-10f64.to_bits() - 1),
        f64::from_bits(1e-10f64.to_bits() + 1),
        -f64::from_bits(1e-10f64.to_bits() - 1),
        9.9e-11,
        1.1e-10,
        6.123233995736766e-17,
        -1.8369701987210297e-16,
        1e-300,
        f64::MIN_POSITIVE,
        f64::MIN_POSITIVE / 8.0,
        f64::MAX,
        f64::INFINITY,
        f64::NEG_INFINITY,
        f64::NAN,
    ]
}

#[test]
fn epsilon_constants_match_the_literal() {
    assert_eq!(EPSILON_BITS, 1e-10f64.to_bits());
    assert_eq!(EPSILON_RECIPROCAL as f64, 1e10);
}

#[test]
fn the_bound_itself_is_not_below_epsilon() {
    assert!(!is_below_epsilon(Binary64::from_bits(EPSILON_BITS)));
    assert!(!is_below_epsilon(bits(-1e-10)));
    assert!(is_below_epsilon(Binary64::from_bits(EPSILON_BITS - 1)));
    assert!(is_below_epsilon(Binary64::from_bits((EPSILON_BITS - 1) | (1u64 << 63))));
}

#[test]
fn below_epsilon_agrees_with_the_machine() {
    for value in samples() {
        assert_eq!(is_below_epsilon(bits(value)), value.abs() < 1e-10);
    }
}

#[test]
fn zeros_are_below_epsilon_and_special_values_are_not() {
    assert!(is_below_epsilon(bits(0.0)));
    assert!(is_below_epsilon(bits(-0.0)));
    assert!(!is_below_epsilon(bits(f64::INFINITY)));
    assert!(!is_below_epsilon(bits(f64::NEG_INFINITY)));
    assert!(!is_below_epsilon(bits(f64::NAN)));
}

#[test]
fn guard_agrees_with_the_machine() {
    for sin in samples() {
        for cos in samples() {
            assert_eq!(guarded_tangent(bits(sin), bits(cos)), expected_tangent(sin, cos));
        }
    }
}

#[test]
fn nearly_zero_cosine_gives_an_infinity_with_the_sign_of_the_sine() {
    let cos = bits(6.123233995736766e-17);
    assert_eq!(guarded_tangent(bits(1.0), cos), Tangent::PositiveInfinity);
    assert_eq!(guarded_tangent(bits(-1.0), cos), Tangent::NegativeInfinity);
    assert_eq!(guarded_tangent(bits(0.0), cos), Tangent::PositiveInfinity);
    assert_eq!(guarded_tangent(bits(-0.0), cos), Tangent::PositiveInfinity);
    assert_eq!(guarded_tangent(bits(f64::NAN), cos), Tangent::NegativeInfinity);
}

#[test]
fn other_cosines_give_the_quotient() {
    assert_eq!(guarded_tangent(bits(0.8660254037844386), bits(0.5)), Tangent::Quotient);
    assert_eq!(guarded_tangent(bits(1.0), bits(1e-10)), Tangent::Quotient);
    assert_eq!(guarded_tangent(bits(1.0), bits(f64::NAN)), Tangent::Quotient);
    assert_eq!(guarded_tangent(bits(1.0), bits(f64::INFINITY)), Tangent::Quotient);
}

#[test]
fn resolve_puts_infinities_in_place_of_the_quotient() {
    let quotient = bits(1.7320508075688772);
    assert_eq!(Tangent::Quotient.resolve(quotient), quotient);
    assert_eq!(Tangent::PositiveInfinity.resolve(quotient), bits(f64::INFINITY));
    assert_eq!(Tangent::NegativeInfinity.resolve(quotient), bits(f64::NEG_INFINITY));
}

#[test]
fn infinite_values_are_written_with_the_infinity_sign() {
    assert_eq!(infinity_glyph(bits(f64::INFINITY)), Some("\u{221e}"));
    assert_eq!(infinity_glyph(bits(f64::NEG_INFINITY)), Some("-\u{221e}"));
    assert_eq!(infinity_glyph(bits(1.7320508075688772)), None);
    assert_eq!(infinity_glyph(bits(0.0)), None);
    assert_eq!(infinity_glyph(bits(f64::MAX)), None);
    assert_eq!(infinity_glyph(bits(f64::NAN)), None);
}
