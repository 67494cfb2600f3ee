use frame_runner::scalar::{Scalar, Vec4};

fn s(v: f32) -> Scalar {
    Scalar::from_bits(v.to_bits())
}

#[test]
fn scalar_keeps_its_bits() {
    assert_eq!(Scalar::from_bits(0x4048_f5c3).to_bits(), 0x4048_f5c3);
    assert_eq!(s(3.14).to_bits(), 3.14f32.to_bits());
}

#[test]
fn zero_and_one_are_the_numbers() {
    assert_eq!(Scalar::zero(), s(0.0));
    assert_eq!(Scalar::one(), s(1.0));
    assert_eq!(Scalar::zero().to_bits(), 0);
    assert_eq!(Scalar::one().to_bits(), 0x3f80_0000);
}

#[test]
fn negated_is_the_product_with_minus_one() {
    let values: [f32; 9] = [0.0, -0.0, 1.0, -1.0, 5.0, 195.0, 0.1, 1.0e-40, f32::MAX];
    for v in values {
        assert_eq!(s(v).negated().to_bits(), (v * -1.0).to_bits());
        assert_eq!(s(v).negated().negated(), s(v));
    }
    assert_eq!(s(f32::INFINITY).negated(), s(f32::NEG_INFINITY));
}

#[test]
fn negated_zero_is_negative_zero() {
    assert_eq!(s(0.0).negated().to_bits(), 0x8000_0000);
    assert_eq!(s(-0.0).negated().to_bits(), 0);
    assert!(s(0.0).negated().is_sign_negative());
    assert!(!s(0.0).is_sign_negative());
}

#[test]
fn is_zero_matches_comparison_with_zero() {
    let values: [f32; 8] = [0.0, -0.0, 1.0, -1.0, 1.0e-45, f32::NAN, f32::INFINITY, 5.0];
    for v in values {
        assert_eq!(s(v).is_zero(), v == 0.0);
    }
}

#[test]
fn is_sign_negative_matches() {
    let values: [f32; 6] = [0.0, -0.0, 1.0, -1.0, 195.0, -195.0];
    for v in values {
        assert_eq!(s(v).is_sign_negative(), v.is_sign_negative());
    }
}

#[test]
fn vec4_zero_test_ignores_sign_of_zero() {
    assert!(Vec4::zero().is_zero());
    let v = Vec4 { x: s(0.0), y: s(-0.0), z: s(0.0), w: s(-0.0) };
    assert!(v.is_zero());
    let v = Vec4 { x: s(0.0), y: s(0.0), z: s(0.0), w: s(1.0e-45) };
    assert!(!v.is_zero());
    let v = Vec4 { x: s(5.0), y: s(0.0), z: s(0.0), w: s(0.0) };
    assert!(!v.is_zero());
}
