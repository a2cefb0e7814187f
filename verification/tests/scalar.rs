use hyperion_core::scalar::Scalar;

fn s(v: f64) -> Scalar {
    Scalar::from_bits(v.to_bits())
}

fn v(s: Scalar) -> f64 {
    f64::from_bits(s.to_bits())
}

const SAMPLES: [f64; 12] = [
    0.0,
    -0.0,
    1.0,
    -1.0,
    0.25,
    -7.5,
    f64::MIN_POSITIVE,
    5e-324,
    f64::MAX,
    f64::INFINITY,
    f64::NEG_INFINITY,
    f64::NAN,
];

#[test]
fn patterns_compare_as_doubles_do() {
    for a in SAMPLES {
        for b in SAMPLES {
            assert_eq!(s(a).ge(s(b)), a >= b, "{a} >= {b}");
            assert_eq!(s(a).gt(s(b)), a > b, "{a} > {b}");
            assert_eq!(s(a).num_eq(s(b)), a == b, "{a} == {b}");
        }
        assert_eq!(s(a).is_finite(), a.is_finite());
        assert_eq!(v(s(a).neg()).to_bits(), (-a).to_bits());
    }
}

#[test]
fn patterns_clamp_as_doubles_do() {
    for a in SAMPLES {
        let c = v(s(a).clamp(s(-1.0), s(1.0)));
        assert_eq!(c.to_bits(), a.clamp(-1.0, 1.0).to_bits(), "{a}");
        let f = v(s(a).finite_or(s(3.0)));
        assert_eq!(f, if a.is_finite() { a } else { 3.0 });
        if !a.is_nan() {
            assert_eq!(v(s(a).at_least(s(1.0))), a.max(1.0));
            assert_eq!(v(s(a).positive_part()), a.max(0.0));
        }
    }
    assert_eq!(v(Scalar::zero()), 0.0);
    assert_eq!(v(Scalar::one()), 1.0);
}

#[test]
fn travels_are_counted_in_255ths() {
    for (v, steps) in [
        (0.0, 0),
        (-0.5, 0),
        (f64::NAN, 0),
        (5e-324, 0),
        (1.0 / 255.0, 1),
        (0.5, 128),
        (100.0 / 255.0, 100),
        (0.997, 254),
        (0.999_999, 255),
        (1.0, 255),
        (7.5, 255),
    ] {
        assert_eq!(Scalar::from_bits(f64::to_bits(v)).in_255ths(), steps, "{v}");
    }
}
