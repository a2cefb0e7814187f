use hyperion_core::rc::{
    can_evaluate, clamp_param, param_from_speed, speed_legacy, to_raw12, RcCurve, MAX_PARAM,
    MAX_SPEED, MIN_PARAM,
};
use hyperion_core::scalar::Scalar;

fn scalar(v: f64) -> Scalar {
    Scalar::from_bits(v.to_bits())
}

#[test]
fn default_curve_matches_contract() {
    let c = RcCurve::default();
    assert_eq!(
        c,
        RcCurve {
            y0: 100,
            x1: 32,
            y1: 100,
            x2: 96,
            y2: 100,
            y3: 100
        }
    );
}

#[test]
fn flat_default_curve_is_constant_param() {
    let c = RcCurve::default();
    for speed in 0..=MAX_SPEED {
        assert_eq!(param_from_speed(&c, speed), 100, "speed={speed}");
    }
}

#[test]
fn first_segment_interpolates_and_endpoints() {
    let c = RcCurve {
        y0: 0,
        x1: 128,
        y1: 100,
        x2: 128,
        y2: 100,
        y3: 100,
    };
    assert_eq!(param_from_speed(&c, 0), 0);
    assert_eq!(param_from_speed(&c, 64), 64 * 100 / 128);
    assert_eq!(param_from_speed(&c, 128), 100);
}

#[test]
fn bypass_when_first_segment_x1_zero_holds_y0() {
    let c = RcCurve {
        y0: 0,
        x1: 0,
        y1: 500,
        x2: 128,
        y2: 500,
        y3: 500,
    };
    assert_eq!(param_from_speed(&c, 0), 0);
}

#[test]
fn bypass_when_second_segment_x1_equals_x2() {
    let c = RcCurve {
        y0: 500,
        x1: 64,
        y1: 0,
        x2: 64,
        y2: 500,
        y3: 500,
    };
    assert_eq!(param_from_speed(&c, 64), 0);
}

#[test]
fn bypass_when_third_segment_x2_is_max_speed() {
    let c = RcCurve {
        y0: 500,
        x1: 64,
        y1: 500,
        x2: 128,
        y2: 0,
        y3: 500,
    };
    assert_eq!(param_from_speed(&c, 128), 0);
}

#[test]
fn last_segment_interpolates_toward_y3() {
    let c = RcCurve {
        y0: 100,
        x1: 0,
        y1: 100,
        x2: 64,
        y2: 100,
        y3: 200,
    };
    assert_eq!(param_from_speed(&c, 96), 150);
}

#[test]
fn param_result_is_clamped() {
    let c = RcCurve {
        y0: 100_000,
        x1: 0,
        y1: 100_000,
        x2: 128,
        y2: 100_000,
        y3: 100_000,
    };
    assert_eq!(param_from_speed(&c, 0), MAX_PARAM);
    let c = RcCurve {
        y0: -100_000,
        x1: 0,
        y1: -100_000,
        x2: 128,
        y2: -100_000,
        y3: -100_000,
    };
    assert_eq!(param_from_speed(&c, 0), MIN_PARAM);
}

#[test]
fn clamp_param_bounds() {
    assert_eq!(clamp_param(0), 0);
    assert_eq!(clamp_param(9999), MAX_PARAM);
    assert_eq!(clamp_param(-9999), MIN_PARAM);
}

#[test]
fn speed_legacy_truncates_and_caps() {
    assert_eq!(speed_legacy(100, 4000), 50);
    assert_eq!(speed_legacy(100_000, 8000), MAX_SPEED);
}

#[test]
fn steep_curves_are_told_apart() {
    let c = RcCurve::default();
    assert!((0..=MAX_SPEED).all(|speed| can_evaluate(&c, speed)));
    let steep = RcCurve { y0: i32::MIN, y1: i32::MAX, ..c };
    assert!(!can_evaluate(&steep, 1));
    assert!(can_evaluate(&steep, MAX_SPEED));
    let long = RcCurve { y0: 0, y1: 100_000_000, ..c };
    assert!(can_evaluate(&long, 21));
    assert!(!can_evaluate(&long, 22));
}

#[test]
fn to_raw12_rounds_and_clamps() {
    assert_eq!(to_raw12(scalar(128.0)), 2048);
    assert_eq!(to_raw12(scalar(255.0)), 4080);
    assert_eq!(to_raw12(scalar(0.0)), 0);
    assert_eq!(to_raw12(scalar(-10.0)), 0);
    assert_eq!(to_raw12(scalar(1000.0)), 4080);
    assert_eq!(to_raw12(scalar(128.5)), (128.5_f64 * 16.0).round() as i32);
}

#[test]
fn sixteenths_agree_with_rounding_in_doubles() {
    let mut v = -1.0;
    while v < 256.0 {
        let expected = (v * 16.0_f64).round().clamp(0.0, 255.0 * 16.0) as i32;
        assert_eq!(to_raw12(scalar(v)), expected, "{v}");
        v += 0.007_8125;
    }
    for v in [f64::NAN, f64::INFINITY, f64::MIN_POSITIVE, 5e-324, 0.031_25, 254.968_75] {
        let expected = (v * 16.0).round().clamp(0.0, 255.0 * 16.0) as i32;
        assert_eq!(to_raw12(scalar(v)), expected, "{v}");
    }
}
