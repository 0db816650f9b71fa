use dirty::scalar::{Scalar, HALF, INFINITY, MINUS_ONE, ONE, SIGN_BIT};

fn s(v: f32) -> Scalar {
    Scalar::from_bits(v.to_bits())
}

fn samples() -> Vec<f32> {
    vec![
        0.0,
        -0.0,
        1.0,
        -1.0,
        0.5,
        -0.5,
        2.0,
        -2.0,
        1.0e-40,
        -1.0e-40,
        f32::MIN_POSITIVE,
        -f32::MIN_POSITIVE,
        f32::MAX,
        f32::MIN,
        f32::EPSILON,
        0.999_999_94,
        1.000_000_1,
        3.5,
        -3.5,
        f32::INFINITY,
        f32::NEG_INFINITY,
        f32::NAN,
        -f32::NAN,
        f32::from_bits(0x7f80_0001),
        f32::from_bits(0xffff_ffff),
    ]
}

#[test]
fn named_patterns_are_the_numbers_they_name() {
    assert_eq!(ONE, 1.0f32.to_bits());
    assert_eq!(MINUS_ONE, (-1.0f32).to_bits());
    assert_eq!(HALF, 0.5f32.to_bits());
    assert_eq!(INFINITY, f32::INFINITY.to_bits());
    assert_eq!(SIGN_BIT, (-0.0f32).to_bits());
    assert_eq!(Scalar::zero(), s(0.0));
    assert_eq!(Scalar::one(), s(1.0));
    assert_eq!(Scalar::minus_one(), s(-1.0));
    assert_eq!(Scalar::half(), s(0.5));
    assert_eq!(Scalar::default(), s(0.0));
    assert_eq!(Scalar::from_bits(0x4049_0fdb).to_bits(), 0x4049_0fdb);
}

#[test]
fn order_agrees_with_the_hardware() {
    for a in samples() {
        for b in samples() {
            assert_eq!(s(a).lt(s(b)), a < b, "{a} < {b}");
            assert_eq!(s(a).gt(s(b)), a > b, "{a} > {b}");
            assert_eq!(s(a).same(s(b)), a == b, "{a} == {b}");
        }
    }
}

#[test]
fn classification_agrees_with_the_hardware() {
    for a in samples() {
        assert_eq!(s(a).nan(), a.is_nan());
        assert_eq!(s(a).sign_bit(), a.is_sign_negative());
        assert_eq!(s(a).zeroed(), a == 0.0);
    }
}

#[test]
fn sign_operations_agree_with_the_hardware() {
    for a in samples() {
        assert_eq!(s(a).abs().to_bits(), a.abs().to_bits());
        assert_eq!(s(a).neg().to_bits(), (-a).to_bits());
        for b in samples() {
            assert_eq!(s(a).with_sign_of(s(b)).to_bits(), a.copysign(b).to_bits());
        }
    }
}

#[test]
fn larger_and_smaller_agree_with_the_hardware() {
    for a in samples() {
        for b in samples() {
            let hi = s(a).max(s(b));
            let lo = s(a).min(s(b));
            if a.is_nan() && b.is_nan() {
                assert!(hi.nan() && lo.nan());
            } else if a == b {
                // Equal operands: the hardware may hand back either, the
                // library hands back the first.
                assert_eq!(hi, s(a));
                assert_eq!(lo, s(a));
            } else {
                assert_eq!(hi.to_bits(), a.max(b).to_bits(), "max({a}, {b})");
                assert_eq!(lo.to_bits(), a.min(b).to_bits(), "min({a}, {b})");
            }
        }
    }
}

#[test]
fn a_number_that_is_not_one_loses_to_any_number() {
    assert_eq!(s(f32::NAN).max(s(0.25)), s(0.25));
    assert_eq!(s(0.25).max(s(f32::NAN)), s(0.25));
    assert_eq!(s(f32::NAN).min(s(0.25)), s(0.25));
    assert_eq!(s(0.25).min(s(f32::NAN)), s(0.25));
}
