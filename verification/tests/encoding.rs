use complex_num::binary64::{negate, FRACTION_SPAN, EXPONENT_SPAN, POSITIVE_ZERO, SIGN_BIT};

fn sample_values() -> Vec<f64> {
    vec![
        0.0,
        -0.0,
        1.0,
        -1.0,
        2.5,
        -5.0,
        1.0e-320,
        -1.0e-320,
        f64::MIN_POSITIVE,
        f64::MAX,
        f64::MIN,
        f64::EPSILON,
        f64::INFINITY,
        f64::NEG_INFINITY,
        f64::NAN,
        -f64::NAN,
    ]
}

#[test]
fn constants_are_the_standard_encodings() {
    assert_eq!(POSITIVE_ZERO, 0.0f64.to_bits());
    assert_eq!(SIGN_BIT, (-0.0f64).to_bits());
    assert_eq!(SIGN_BIT, 1u64 << 63);
    assert_eq!(FRACTION_SPAN, 1u64 << 52);
    assert_eq!(EXPONENT_SPAN, 1u64 << 11);
}

#[test]
fn negate_agrees_with_the_hardware() {
    for x in sample_values() {
        assert_eq!(negate(x.to_bits()), (-x).to_bits());
    }
}

#[test]
fn negate_exact_encodings() {
    assert_eq!(negate(0x4014_0000_0000_0000), 0xC014_0000_0000_0000);
    assert_eq!(negate(0xC014_0000_0000_0000), 0x4014_0000_0000_0000);
    assert_eq!(negate(0), 0x8000_0000_0000_0000);
    assert_eq!(negate(0x8000_0000_0000_0000), 0);
    assert_eq!(negate(u64::MAX), 0x7FFF_FFFF_FFFF_FFFF);
}

#[test]
fn negate_is_not_the_identity() {
    for x in sample_values() {
        assert_ne!(negate(x.to_bits()), x.to_bits());
    }
}

#[test]
fn negate_twice_is_the_identity() {
    for x in sample_values() {
        assert_eq!(negate(negate(x.to_bits())), x.to_bits());
    }
}

#[test]
fn negate_keeps_the_class() {
    assert!(f64::from_bits(negate(f64::NAN.to_bits())).is_nan());
    assert_eq!(f64::from_bits(negate(f64::INFINITY.to_bits())), f64::NEG_INFINITY);
    assert_eq!(f64::from_bits(negate(f64::NEG_INFINITY.to_bits())), f64::INFINITY);
    let zero = f64::from_bits(negate(0.0f64.to_bits()));
    assert_eq!(zero, 0.0);
    assert!(zero.is_sign_negative());
    for x in sample_values() {
        let y = f64::from_bits(negate(x.to_bits()));
        assert_eq!(y.is_nan(), x.is_nan());
        assert_eq!(y.is_infinite(), x.is_infinite());
        assert_eq!(y.is_sign_negative(), !x.is_sign_negative());
        if !x.is_nan() {
            assert_eq!(y.abs(), x.abs());
        }
    }
}
