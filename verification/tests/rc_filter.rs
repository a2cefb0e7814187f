use hyperion_core::rc::{RcConfig, RcCurve, RcFilter, RcMode, RcStep, RcStickState};
use hyperion_core::scalar::Scalar;

fn ds4_sample(x: f64, y: f64) -> (f64, f64) {
    (x, y)
}

fn out_ds4(s: (f64, f64)) -> (f64, f64) {
    s
}

fn sixteenths(v: f64) -> i32 {
    (v * 16.0).round() as i32
}

fn process(cfg: &RcConfig, st: &mut RcStickState, s: (f64, f64)) -> (f64, f64) {
    match RcFilter.process(cfg, st, sixteenths(s.0), sixteenths(s.1), 0) {
        RcStep::Off => s,
        RcStep::Done { x, y } => (x as f64 / 256.0, y as f64 / 256.0),
        RcStep::Pending { .. } => panic!("the integer filter never waits"),
    }
}

fn prime(cfg: &RcConfig, st: &mut RcStickState, s: (f64, f64)) {
    let seed = |v: f64| Scalar::from_bits(v.to_bits());
    RcFilter.prime(cfg, st, sixteenths(s.0), sixteenths(s.1), seed(s.0), seed(s.1));
}

fn cfg_fb(fixed_param: i32) -> RcConfig {
    RcConfig {
        enabled: true,
        mode: RcMode::FireBirdInteger,
        use_dynamic_curve: false,
        period_us: 4000,
        fixed_param,
        curve: RcCurve::default(),
    }
}

#[test]
fn disabled_is_pass_through() {
    let cfg = RcConfig {
        enabled: false,
        ..cfg_fb(100)
    };
    let mut st = RcStickState::default();
    let s = ds4_sample(0.0, 255.0);
    let out = process(&cfg, &mut st, s);
    assert_eq!(out_ds4(out), out_ds4(s));
}

#[test]
fn firebird_headline_through_filter() {
    let cfg = cfg_fb(100);
    let mut st = RcStickState::default();

    let p0 = process(&cfg, &mut st, ds4_sample(128.0, 128.0));
    let (px, _) = out_ds4(p0);
    assert!((px - 128.0).abs() < 1e-9);

    let p1 = process(&cfg, &mut st, ds4_sample(255.0, 128.0));
    let (x1, y1) = out_ds4(p1);
    assert!((x1 - 153.3984375).abs() < 1e-4, "got {x1}");
    assert!((y1 - 128.0).abs() < 1e-4, "got {y1}");
}

#[test]
fn firebird_negative_clamps_to_255() {
    let cfg = cfg_fb(-100);
    let mut st = RcStickState::default();
    let _ = process(&cfg, &mut st, ds4_sample(128.0, 128.0));
    let out = process(&cfg, &mut st, ds4_sample(160.0, 128.0));
    let (x, _) = out_ds4(out);
    assert!((x - 255.0).abs() < 1e-4, "got {x}");
}

#[test]
fn prime_seeds_so_first_step_takes_no_motion() {
    let cfg = cfg_fb(100);
    let mut st = RcStickState::default();
    let s = ds4_sample(200.0, 128.0);
    prime(&cfg, &mut st, s);
    let out = process(&cfg, &mut st, s);
    let (x, _) = out_ds4(out);
    assert!(
        (x - 200.0).abs() < 1e-4,
        "primed step should not move, got {x}"
    );
}

#[test]
fn period_change_recomputes_coeffs() {
    let mut cfg = cfg_fb(100);
    let mut st = RcStickState::default();
    let _ = process(&cfg, &mut st, ds4_sample(128.0, 128.0));
    assert_eq!(st.coeffs.unwrap().period_us, 4000);
    cfg.period_us = 2000;
    let _ = process(&cfg, &mut st, ds4_sample(128.0, 128.0));
    assert_eq!(st.coeffs.unwrap().period_us, 2000);
    assert_eq!(st.coeffs.unwrap().base_value, 50);
}

#[test]
fn fixed_mode_writes_prev_raw12() {
    let cfg = cfg_fb(100);
    let mut st = RcStickState::default();
    let _ = process(&cfg, &mut st, ds4_sample(200.0, 220.0));
    assert_eq!(
        st.prev_raw12,
        [(200 * 16), (220 * 16)]
    );
}

#[test]
fn x_and_y_keep_independent_state() {
    let cfg = cfg_fb(100);
    let mut st = RcStickState::default();
    let _ = process(&cfg, &mut st, ds4_sample(128.0, 128.0));
    let out = process(&cfg, &mut st, ds4_sample(255.0, 200.0));
    let (x, y) = out_ds4(out);
    assert!((x - 153.3984375).abs() < 1e-4, "x={x}");
    let ry = (200 * 16);
    let expected_q4 = 32768 + 25 * ((ry << 4) - 32768) / 125;
    assert!((y - expected_q4 as f64 / 256.0).abs() < 1e-4, "y={y}");
}

#[test]
fn dynamic_curve_bypass_at_high_speed() {
    let cfg = RcConfig {
        enabled: true,
        mode: RcMode::FireBirdInteger,
        use_dynamic_curve: true,
        period_us: 4000,
        fixed_param: 0,
        curve: RcCurve {
            y0: 100,
            x1: 1,
            y1: 100,
            x2: 128,
            y2: 0,
            y3: 0,
        },
    };
    let mut st = RcStickState::default();
    let _ = process(&cfg, &mut st, ds4_sample(128.0, 128.0));
    let out = process(&cfg, &mut st, ds4_sample(255.0, 128.0));
    let (x, _) = out_ds4(out);
    assert!((x - 255.0).abs() < 1e-4, "got {x}");
}

#[test]
fn the_other_modes_wait_for_their_recurrence() {
    let cfg = RcConfig { mode: RcMode::UltimateLegacy, ..cfg_fb(70) };
    let mut st = RcStickState::default();
    match RcFilter.process(&cfg, &mut st, 2048, 2048, 0) {
        RcStep::Pending { param, coeffs } => {
            assert_eq!(param, 70);
            assert_eq!(coeffs.period_us, 4000);
        }
        other => panic!("unexpected {other:?}"),
    }
    RcFilter.reset(&mut st);
    assert_eq!(st, RcStickState::default());
}

#[test]
fn a_report_on_a_steep_curve_is_refused_beforehand() {
    let curve = RcCurve { y0: i32::MIN, y1: i32::MAX, ..RcCurve::default() };
    let cfg = RcConfig { use_dynamic_curve: true, curve, ..cfg_fb(70) };
    let st = RcStickState::default();
    assert!(!RcFilter.can_process(&cfg, &st, 16, 0, 0));
    assert!(RcFilter.can_process(&RcConfig { use_dynamic_curve: false, ..cfg }, &st, 16, 0, 0));
    assert!(RcFilter.can_process(&RcConfig { curve: RcCurve::default(), ..cfg }, &st, 16, 0, 0));
}
