use coulomb::charge::{Charge, Interaction, Sign};
use coulomb::float_bits::{abs_bits, non_negative, INFINITY_BITS, SIGN_BIT};

fn charge(q: f64) -> Charge {
    Charge::from_bits(q.to_bits())
}

#[test]
fn zero_charge_is_positive() {
    let c = charge(0.0);
    assert_eq!(c.sign(), Sign::Positive);
    assert_eq!(f64::from_bits(c.magnitude_bits()), 0.0);
}

#[test]
fn negative_zero_charge_is_positive() {
    let c = charge(-0.0);
    assert_eq!(c.sign(), Sign::Positive);
    assert_eq!(c.magnitude_bits(), 0);
    assert_eq!(c.signed_bits(), 0);
}

#[test]
fn positive_charge_splits() {
    let c = charge(2.0e-6);
    assert_eq!(c.sign(), Sign::Positive);
    assert_eq!(f64::from_bits(c.magnitude_bits()), 2.0e-6);
    assert_eq!(f64::from_bits(c.signed_bits()), 2.0e-6);
}

#[test]
fn negative_charge_splits() {
    let c = charge(-4.0e-6);
    assert_eq!(c.sign(), Sign::Negative);
    assert_eq!(f64::from_bits(c.magnitude_bits()), 4.0e-6);
    assert_eq!(f64::from_bits(c.signed_bits()), -4.0e-6);
}

#[test]
fn infinite_charges_split() {
    let c = charge(f64::NEG_INFINITY);
    assert_eq!(c.sign(), Sign::Negative);
    assert_eq!(c.magnitude_bits(), INFINITY_BITS);
    assert_eq!(charge(f64::INFINITY).sign(), Sign::Positive);
}

#[test]
fn nan_charge_is_negative() {
    let c = charge(f64::NAN);
    assert_eq!(c.sign(), Sign::Negative);
    assert!(f64::from_bits(c.magnitude_bits()).is_nan());
}

#[test]
fn abs_bits_clears_sign() {
    assert_eq!(abs_bits((-1.5f64).to_bits()), 1.5f64.to_bits());
    assert_eq!(abs_bits(1.5f64.to_bits()), 1.5f64.to_bits());
    assert_eq!(abs_bits(SIGN_BIT), 0);
}

#[test]
fn non_negative_matches_float_comparison() {
    for q in [0.0, -0.0, 1.0, -1.0, 3.0e8, -2.5e-300, f64::MIN_POSITIVE, f64::INFINITY, f64::NEG_INFINITY, f64::NAN, -f64::NAN] {
        assert_eq!(non_negative(q.to_bits()), q >= 0.0, "{:?}", q);
    }
}

#[test]
fn sign_of_bits() {
    assert_eq!(Sign::of_bits(7.0f64.to_bits()), Sign::Positive);
    assert_eq!(Sign::of_bits((-7.0f64).to_bits()), Sign::Negative);
}

#[test]
fn like_signs_dispel() {
    assert_eq!(Sign::Positive.interaction(&Sign::Positive), Interaction::Dispel);
    assert_eq!(Sign::Negative.interaction(&Sign::Negative), Interaction::Dispel);
    assert_eq!(charge(2.0e-6).interaction(&charge(4.0e-6)), Interaction::Dispel);
}

#[test]
fn unlike_signs_attract() {
    assert_eq!(Sign::Positive.interaction(&Sign::Negative), Interaction::Attract);
    assert_eq!(Sign::Negative.interaction(&Sign::Positive), Interaction::Attract);
    assert_eq!(charge(4.0e-6).interaction(&charge(-4.0e-6)), Interaction::Attract);
}

#[test]
fn zero_charge_dispels_positive_one() {
    assert_eq!(charge(0.0).interaction(&charge(1.0)), Interaction::Dispel);
    assert_eq!(charge(0.0).interaction(&charge(-1.0)), Interaction::Attract);
}
