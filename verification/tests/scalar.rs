use raytracer::common::scalar::{Scalar, INFINITY_BITS, ONE_BITS, SIGN_BIT, TOP_LEVEL_BITS};

fn s(x: f64) -> Scalar {
    Scalar::from_bits(x.to_bits())
}

fn f(x: Scalar) -> f64 {
    f64::from_bits(x.to_bits())
}

fn samples() -> Vec<f64> {
    vec![
        0.0,
        -0.0,
        1.0,
        -1.0,
        0.5,
        0.001,
        0.999,
        0.9990000000000001,
        1e-8,
        -1e-8,
        9.99e-9,
        5e-324,
        -5e-324,
        2.2250738585072014e-308,
        1.7976931348623157e308,
        -1.7976931348623157e308,
        f64::INFINITY,
        f64::NEG_INFINITY,
        f64::NAN,
        -f64::NAN,
        f64::from_bits(0x7FF0_0000_0000_0001),
        3.0,
        -3.0,
        255.0 / 256.0,
        0.00390625,
        0.003906249999999999,
        0.25,
        0.7,
        123456.789,
    ]
}

#[test]
fn constants_are_the_bit_patterns_of_their_values() {
    assert_eq!(Scalar::zero().to_bits(), 0.0f64.to_bits());
    assert_eq!(Scalar::one().to_bits(), 1.0f64.to_bits());
    assert_eq!(Scalar::infinity().to_bits(), f64::INFINITY.to_bits());
    assert_eq!(ONE_BITS, 1.0f64.to_bits());
    assert_eq!(INFINITY_BITS, f64::INFINITY.to_bits());
    assert_eq!(SIGN_BIT, (-0.0f64).to_bits());
    assert_eq!(TOP_LEVEL_BITS, 0.999f64.to_bits());
}

#[test]
fn comparisons_agree_with_the_hardware() {
    for a in samples() {
        for b in samples() {
            assert_eq!(s(a).lt(s(b)), a < b, "{a} < {b}");
            assert_eq!(s(a).le(s(b)), a <= b, "{a} <= {b}");
            assert_eq!(s(a).gt(s(b)), a > b, "{a} > {b}");
            assert_eq!(s(a).num_eq(s(b)), a == b, "{a} == {b}");
        }
    }
}

#[test]
fn classification_agrees_with_the_hardware() {
    for a in samples() {
        assert_eq!(s(a).is_nan(), a.is_nan());
        assert_eq!(s(a).is_sign_negative(), a.is_sign_negative());
    }
}

#[test]
fn sign_operations_agree_with_the_hardware() {
    for a in samples() {
        assert_eq!(s(a).neg().to_bits(), (-a).to_bits());
        assert_eq!(s(a).abs().to_bits(), a.abs().to_bits());
        assert_eq!(s(a).neg().neg(), s(a));
    }
}

#[test]
fn min_and_max_ignore_a_nan() {
    assert_eq!(f(s(f64::NAN).min(s(1.0))), 1.0);
    assert_eq!(f(s(1.0).min(s(f64::NAN))), 1.0);
    assert_eq!(f(s(f64::NAN).max(s(0.0))), 0.0);
    assert_eq!(f(s(0.25).min(s(1.0))), 0.25);
    assert_eq!(f(s(7.0).min(s(1.0))), 1.0);
    assert_eq!(f(s(-2.0).max(s(0.0))), 0.0);
    assert!(s(f64::NAN).min(s(f64::NAN)).is_nan());
}

#[test]
fn min_and_max_agree_with_the_hardware_on_unequal_numbers() {
    for a in samples() {
        for b in samples() {
            if a.is_nan() && b.is_nan() {
                continue;
            }
            if a == b {
                continue;
            }
            assert_eq!(s(a).min(s(b)).to_bits(), a.min(b).to_bits(), "min({a}, {b})");
            assert_eq!(s(a).max(s(b)).to_bits(), a.max(b).to_bits(), "max({a}, {b})");
        }
    }
}

#[test]
fn clamp_agrees_with_the_hardware() {
    for a in samples() {
        assert_eq!(
            s(a).clamp(s(0.0), s(0.999)).to_bits(),
            a.clamp(0.0, 0.999).to_bits(),
            "clamp({a})"
        );
        assert_eq!(
            s(a).clamp(s(-1.0), s(1.0)).to_bits(),
            a.clamp(-1.0, 1.0).to_bits(),
            "clamp({a})"
        );
    }
}

#[test]
fn channel_is_the_clamped_value_times_256_truncated() {
    for a in samples() {
        let expected = (a.clamp(0.0, 0.999) * 256.0) as u32;
        assert_eq!(s(a).channel(), expected, "channel({a})");
    }
    let mut x = 0.0f64;
    while x < 1.1 {
        let expected = (x.clamp(0.0, 0.999) * 256.0) as u32;
        assert_eq!(s(x).channel(), expected, "channel({x})");
        x += 0.000_37;
    }
}

#[test]
fn channel_steps_exactly_at_multiples_of_one_in_256() {
    for k in 1u32..256 {
        let edge = k as f64 / 256.0;
        let below = f64::from_bits(edge.to_bits() - 1);
        assert_eq!(s(edge).channel(), k.min(255));
        assert_eq!(s(below).channel(), k - 1);
    }
    assert_eq!(s(0.0).channel(), 0);
    assert_eq!(s(0.5).channel(), 128);
    assert_eq!(s(1.0).channel(), 255);
    assert_eq!(s(f64::INFINITY).channel(), 255);
    assert_eq!(s(f64::NEG_INFINITY).channel(), 0);
    assert_eq!(s(f64::NAN).channel(), 0);
    assert_eq!(s(-0.0).channel(), 0);
}

#[test]
fn channel_brackets_the_value_times_256() {
    let mut x = 0.0f64;
    while x <= 0.999 {
        let c = s(x).channel() as f64;
        assert!(c <= 256.0 * x && 256.0 * x < c + 1.0, "channel({x}) = {c}");
        x += 0.000_123;
    }
    for x in [0.999, 0.5, 0.25, 1e-300, 5e-324, 0.0039062499999999996] {
        let c = s(x).channel() as f64;
        assert!(c <= 256.0 * x && 256.0 * x < c + 1.0, "channel({x}) = {c}");
    }
}

#[test]
fn order_is_strict_and_total_on_numbers() {
    let values = samples();
    for &a in &values {
        assert!(!s(a).lt(s(a)));
        for &b in &values {
            let (x, y) = (s(a), s(b));
            if a.is_nan() || b.is_nan() {
                assert!(!x.lt(y) && !x.le(y) && !x.gt(y) && !x.num_eq(y));
            } else {
                let relations = [x.lt(y), x.num_eq(y), x.gt(y)];
                assert_eq!(relations.iter().filter(|&&r| r).count(), 1, "{a} and {b}");
            }
            assert_eq!(x.le(y), x.lt(y) || x.num_eq(y));
            for &c in &values {
                let z = s(c);
                if x.lt(y) && y.lt(z) {
                    assert!(x.lt(z));
                }
                if x.le(y) && y.le(z) {
                    assert!(x.le(z));
                }
            }
        }
    }
}

#[test]
fn negation_mirrors_the_order() {
    for a in samples() {
        for b in samples() {
            assert_eq!(s(a).lt(s(b)), s(b).neg().lt(s(a).neg()));
            assert_eq!(s(a).le(s(b)), s(b).neg().le(s(a).neg()));
        }
        assert_eq!(s(a).neg().is_nan(), s(a).is_nan());
    }
}
