use prevent::reading::Reading;

fn r(x: f64) -> Reading {
    Reading::from_bits(x.to_bits())
}

#[test]
fn decodes_normal_subnormal_and_special_values() {
    assert_eq!(r(1.0), Reading::Finite { mantissa: 1 << 52, exponent: -52 });
    assert_eq!(r(-2.0), Reading::Finite { mantissa: -(1 << 52), exponent: -51 });
    assert_eq!(r(0.0), Reading::Finite { mantissa: 0, exponent: -1074 });
    assert_eq!(r(-0.0), Reading::Finite { mantissa: 0, exponent: -1074 });
    assert_eq!(r(f64::from_bits(1)), Reading::Finite { mantissa: 1, exponent: -1074 });
    assert_eq!(r(f64::INFINITY), Reading::Infinite { negative: false });
    assert_eq!(r(f64::NEG_INFINITY), Reading::Infinite { negative: true });
    assert_eq!(r(f64::NAN), Reading::NotANumber);
}

#[test]
fn comparisons_follow_ieee_semantics() {
    assert!(r(55.0).at_least(550));
    assert!(r(55.0).at_most(550));
    assert!(!r(54.9).at_least(549));
    assert!(r(54.9).at_most(549));
    assert!(r(18.5).equals(185));
    assert!(!r(18.5).equals(184));
    assert!(r(1.0).equals(10));
    assert!(!r(1.5).equals(10));
    assert!(r(39.9).at_most(399));
    assert!(r(1e300).at_least(100_000));
    assert!(!r(1e300).at_most(100_000));
    assert!(r(-1e300).at_most(-100_000));
    assert!(r(1e-300).at_least(0));
    assert!(!r(1e-300).at_least(1));
    assert!(!r(f64::NAN).at_least(-100_000));
    assert!(!r(f64::NAN).at_most(100_000));
    assert!(r(f64::INFINITY).at_least(100_000));
    assert!(r(f64::NEG_INFINITY).at_most(-100_000));
}

#[test]
fn nonzero_matches_float_inequality() {
    assert!(!r(0.0).is_nonzero());
    assert!(!r(-0.0).is_nonzero());
    assert!(r(1.0).is_nonzero());
    assert!(r(-3.0).is_nonzero());
    assert!(r(f64::NAN).is_nonzero());
    assert!(r(f64::INFINITY).is_nonzero());
}
