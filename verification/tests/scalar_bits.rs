use planetarium::scalar::{
    FIVE_BITS, FORTY_BITS_32, HALF_BITS, NEG_ONE_BITS, NEG_ONE_BITS_32, ONE_BITS, PI_BITS,
    PI_BITS_32, TWO_BITS, ZERO_BITS, ZERO_BITS_32,
};
use planetarium::scalar::{real_eq, real_is_zero, real_neg, single_le_zero, single_neg};
use planetarium::scene::{DAYS_PER_YEAR_BITS_32, ORBIT_SCALE_BITS_32, PLANET_RADIUS_BITS};

#[test]
fn binary64_constants_hold_their_values() {
    assert_eq!(ZERO_BITS, 0.0f64.to_bits());
    assert_eq!(HALF_BITS, 0.5f64.to_bits());
    assert_eq!(ONE_BITS, 1.0f64.to_bits());
    assert_eq!(TWO_BITS, 2.0f64.to_bits());
    assert_eq!(FIVE_BITS, 5.0f64.to_bits());
    assert_eq!(NEG_ONE_BITS, (-1.0f64).to_bits());
    assert_eq!(PI_BITS, std::f64::consts::PI.to_bits());
    assert_eq!(PLANET_RADIUS_BITS, 2.0f64.to_bits());
}

#[test]
fn binary32_constants_hold_their_values() {
    assert_eq!(ZERO_BITS_32, 0.0f32.to_bits());
    assert_eq!(PI_BITS_32, (std::f64::consts::PI as f32).to_bits());
    assert_eq!(FORTY_BITS_32, 40.0f32.to_bits());
    assert_eq!(NEG_ONE_BITS_32, (-1.0f32).to_bits());
    assert_eq!(DAYS_PER_YEAR_BITS_32, 365.0f32.to_bits());
    assert_eq!(ORBIT_SCALE_BITS_32, 100.0f32.to_bits());
}

#[test]
fn zero_test_agrees_with_comparison_to_zero() {
    for v in [0.0f64, -0.0, 1.0, -3.5, f64::NAN, f64::INFINITY, f64::MIN_POSITIVE] {
        assert_eq!(real_is_zero(v.to_bits()), v == 0.0, "value {}", v);
    }
}

#[test]
fn equality_test_agrees_with_native_comparison() {
    let samples = [0.0f64, -0.0, 1.0, -1.0, 3.25, f64::NAN, f64::INFINITY, f64::NEG_INFINITY];
    for &a in &samples {
        for &b in &samples {
            assert_eq!(real_eq(a.to_bits(), b.to_bits()), a == b, "{} == {}", a, b);
        }
    }
}

#[test]
fn negation_flips_the_sign() {
    for v in [0.0f64, -0.0, 2.5, -7.0, f64::INFINITY] {
        assert_eq!(real_neg(v.to_bits()), (-v).to_bits(), "value {}", v);
    }
    for v in [0.0f32, -0.0, 2.5, -7.0] {
        assert_eq!(single_neg(v.to_bits()), (-v).to_bits(), "value {}", v);
    }
}

#[test]
fn le_zero_test_agrees_with_native_comparison() {
    for v in [0.0f32, -0.0, 0.01, -0.01, 1.0, -1.0, f32::NAN, f32::INFINITY, f32::NEG_INFINITY] {
        assert_eq!(single_le_zero(v.to_bits()), v <= 0.0, "value {}", v);
    }
}
