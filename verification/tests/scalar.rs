use fsds_rs::scalar::{Double, INFINITY_BITS, MAGNITUDE_MASK, NAN_BITS, ONE_BITS, SIGN_MASK};

fn d(x: f64) -> Double {
    Double::from_bits(x.to_bits())
}

fn samples() -> Vec<f64> {
    vec![
        0.0,
        -0.0,
        1.0,
        -1.0,
        2.0,
        0.5,
        1.0 + f64::EPSILON,
        1.0 - f64::EPSILON / 2.0,
        f64::MIN_POSITIVE,
        5e-324,
        -5e-324,
        f64::MAX,
        f64::MIN,
        f64::INFINITY,
        f64::NEG_INFINITY,
        f64::NAN,
        -f64::NAN,
        f64::from_bits(0x7ff0_0000_0000_0001),
        f64::from_bits(0xffff_ffff_ffff_ffff),
        3.141592653589793,
        -2.718281828459045,
    ]
}

#[test]
fn bits_pass_through() {
    for x in samples() {
        assert_eq!(d(x).to_bits(), x.to_bits());
        assert_eq!(Double::from_bits(x.to_bits()).bits, x.to_bits());
    }
}

#[test]
fn constants_are_the_bit_patterns_of_the_numbers() {
    assert_eq!(Double::zero().to_bits(), 0.0f64.to_bits());
    assert_eq!(Double::one().to_bits(), 1.0f64.to_bits());
    assert_eq!(ONE_BITS, 1.0f64.to_bits());
    assert_eq!(NAN_BITS, 0x7ff8_0000_0000_0000);
    assert_eq!(INFINITY_BITS, f64::INFINITY.to_bits());
    assert_eq!(SIGN_MASK, (-0.0f64).to_bits());
    assert_eq!(MAGNITUDE_MASK, !SIGN_MASK);
    assert!(f64::from_bits(Double::nan().to_bits()).is_nan());
    assert_eq!(Double::nan().to_bits(), NAN_BITS);
}

#[test]
fn is_nan_agrees_with_the_numbers() {
    for x in samples() {
        assert_eq!(d(x).is_nan(), x.is_nan());
    }
    assert!(Double::nan().is_nan());
    assert!(!d(f64::INFINITY).is_nan());
}

#[test]
fn is_zero_agrees_with_the_numbers() {
    for x in samples() {
        assert_eq!(d(x).is_zero(), x == 0.0);
    }
    assert!(d(-0.0).is_zero());
    assert!(!d(5e-324).is_zero());
}

#[test]
fn is_one_agrees_with_the_numbers() {
    for x in samples() {
        assert_eq!(d(x).is_one(), x == 1.0);
    }
    assert!(!d(1.0 + f64::EPSILON).is_one());
    assert!(!d(-1.0).is_one());
}

#[test]
fn neg_agrees_with_the_numbers() {
    for x in samples() {
        assert_eq!(d(x).neg().to_bits(), (-x).to_bits());
        assert_eq!(d(x).neg().neg(), d(x));
        assert_ne!(d(x).neg(), d(x));
    }
    assert_eq!(d(2.5).neg(), d(-2.5));
    assert_eq!(d(0.0).neg(), d(-0.0));
}

#[test]
fn equality_is_by_bits() {
    assert_eq!(Double::nan(), Double::nan());
    assert_ne!(d(0.0), d(-0.0));
    assert_eq!(d(1.5), d(1.5));
}
