use nucleation::scalar::Scalar;

fn s(x: f64) -> Scalar {
    Scalar::from_bits(x.to_bits())
}

#[test]
fn comparisons_agree_with_the_hardware() {
    let values = [
        0.0,
        -0.0,
        1.0,
        -1.0,
        0.05,
        -0.05,
        1e-10,
        -1e-10,
        1.5,
        2.0,
        4.0,
        f64::MIN_POSITIVE,
        5e-324,
        -5e-324,
        f64::MAX,
        f64::MIN,
        f64::INFINITY,
        f64::NEG_INFINITY,
        f64::NAN,
        -f64::NAN,
    ];
    for &a in values.iter() {
        assert_eq!(s(a).is_nan(), a.is_nan());
        assert_eq!(s(a).abs().to_bits(), a.abs().to_bits());
        for &b in values.iter() {
            assert_eq!(s(a).is_lt(s(b)), a < b, "{} < {}", a, b);
            assert_eq!(s(a).is_gt(s(b)), a > b, "{} > {}", a, b);
            assert_eq!(s(a).is_le(s(b)), a <= b, "{} <= {}", a, b);
            assert_eq!(s(a).is_ge(s(b)), a >= b, "{} >= {}", a, b);
            assert_eq!(s(a).is_same(s(b)), a == b, "{} == {}", a, b);
        }
    }
}

#[test]
fn max_skips_a_nan() {
    assert_eq!(s(f64::NAN).max(s(1e-10)).to_bits(), 1e-10f64.to_bits());
    assert_eq!(s(3.0).max(s(f64::NAN)).to_bits(), 3.0f64.to_bits());
    assert_eq!(s(3.0).max(s(1e-10)).to_bits(), 3.0f64.to_bits());
    assert_eq!(s(1e-12).max(s(1e-10)).to_bits(), 1e-10f64.to_bits());
    assert_eq!(s(-2.0).max(s(0.0)).to_bits(), 0.0f64.to_bits());
}

#[test]
fn order_key_is_monotone() {
    assert_eq!(s(0.0).order_key(), 0);
    assert_eq!(s(-0.0).order_key(), 0);
    assert!(s(1.0).order_key() < s(2.0).order_key());
    assert!(s(-2.0).order_key() < s(-1.0).order_key());
    assert!(s(-1.0).order_key() < s(1.0).order_key());
}
