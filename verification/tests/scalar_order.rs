use slice_volume::scalar::{Scalar, INFINITY_BITS, ONE_BITS, SIGN_BIT};

fn s(x: f32) -> Scalar {
    Scalar::from_bits(x.to_bits())
}

fn samples() -> Vec<f32> {
    vec![
        f32::NEG_INFINITY,
        f32::MIN,
        -1.0e10,
        -100.0,
        -2.5,
        -1.0,
        -f32::MIN_POSITIVE,
        -1.0e-45,
        -0.0,
        0.0,
        1.0e-45,
        f32::MIN_POSITIVE,
        0.5,
        1.0,
        1.0000001,
        5.0,
        10.0,
        65504.0,
        f32::MAX,
        f32::INFINITY,
    ]
}

#[test]
fn key_orders_numbers_as_the_numbers_are_ordered() {
    let xs = samples();
    for &a in &xs {
        for &b in &xs {
            assert_eq!(a < b, s(a).order_key() < s(b).order_key(), "{} < {}", a, b);
            assert_eq!(a == b, s(a).order_key() == s(b).order_key(), "{} == {}", a, b);
            assert_eq!(a == b, s(a).equals_number(s(b)), "{} == {}", a, b);
        }
    }
}

#[test]
fn key_exact_values() {
    assert_eq!(s(0.0).order_key(), 0);
    assert_eq!(s(-0.0).order_key(), 0);
    assert_eq!(s(1.0).order_key(), 0x3f80_0000);
    assert_eq!(s(-1.0).order_key(), -0x3f80_0000);
    assert_eq!(s(f32::INFINITY).order_key(), 0x7f80_0000);
    assert_eq!(s(f32::NEG_INFINITY).order_key(), -0x7f80_0000);
    assert_eq!(Scalar::from_bits(0xffff_ffff).order_key(), -0x7fff_ffff);
}

#[test]
fn nan_is_told_from_numbers() {
    assert!(s(f32::NAN).nan());
    assert!(Scalar::from_bits(0x7f80_0001).nan());
    assert!(Scalar::from_bits(0xffc0_0000).nan());
    for &x in &samples() {
        assert!(!s(x).nan(), "{}", x);
        assert_eq!(x.is_finite(), s(x).finite(), "{}", x);
        assert_eq!(x > 0.0 && x.is_finite(), s(x).positive_finite(), "{}", x);
    }
    assert!(!s(f32::NAN).finite());
    assert!(!s(f32::NAN).positive_finite());
    assert!(!s(f32::NAN).equals_number(s(f32::NAN)));
    assert!(!s(f32::NAN).equals_number(s(1.0)));
}

#[test]
fn zero_and_one_are_the_numbers() {
    assert_eq!(f32::from_bits(Scalar::zero().to_bits()), 0.0);
    assert_eq!(Scalar::zero().to_bits(), 0);
    assert_eq!(f32::from_bits(Scalar::one().to_bits()), 1.0);
    assert_eq!(ONE_BITS, 1.0f32.to_bits());
    assert_eq!(INFINITY_BITS, f32::INFINITY.to_bits());
    assert_eq!(SIGN_BIT, (-0.0f32).to_bits());
}

#[test]
fn bits_round_trip() {
    for &x in &samples() {
        assert_eq!(Scalar::from_bits(x.to_bits()).to_bits(), x.to_bits());
        assert_eq!(s(x), Scalar { bits: x.to_bits() });
    }
}
