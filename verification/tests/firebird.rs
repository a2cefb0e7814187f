use hyperion_core::rc::firebird::step;
use hyperion_core::rc::{FbAxisState, PeriodCoeffs};

const TOL: f64 = 1e-4;

fn coeffs() -> PeriodCoeffs {
    PeriodCoeffs::new(4000)
}

#[test]
fn headline_golden_153_3984375() {
    let c = coeffs();
    let mut st = FbAxisState::default();
    let r0 = (128 * 16);
    let out0 = step(&mut st, r0, 100, c.lead_base, c.base_value) as f64 / 256.0;
    assert!((out0 - 128.0).abs() < TOL);
    assert_eq!(st.pos_q4, 32768);
    let r1 = (255 * 16);
    let out1 = step(&mut st, r1, 100, c.lead_base, c.base_value) as f64 / 256.0;
    assert_eq!(st.pos_q4, 39270);
    assert!(
        (out1 - 153.3984375).abs() < TOL,
        "got {out1}, want 153.3984375"
    );
}

#[test]
fn negative_branch_clamps_to_255() {
    let c = coeffs();
    let mut st = FbAxisState::default();
    let _ = step(&mut st, (128 * 16), -100, c.lead_base, c.base_value);
    let out = step(&mut st, (160 * 16), -100, c.lead_base, c.base_value) as f64 / 256.0;
    assert!((out - 255.0).abs() < TOL, "got {out}");
}

#[test]
fn param_zero_bypasses_without_priming() {
    let c = coeffs();
    let mut st = FbAxisState::default();
    let out = step(&mut st, (132 * 16), 0, c.lead_base, c.base_value) as f64 / 256.0;
    assert!((out - 132.0).abs() < TOL);
    assert!(!st.pos_primed, "bypass must not prime");
    assert!(!st.neg_primed);
}

#[test]
fn positive_step_from_128_to_160() {
    let c = coeffs();
    let mut st = FbAxisState::default();
    let _ = step(&mut st, (128 * 16), 100, c.lead_base, c.base_value);
    let out = step(&mut st, (160 * 16), 100, c.lead_base, c.base_value) as f64 / 256.0;
    assert!((out - 134.3984).abs() < TOL, "got {out}");
}

#[test]
fn positive_and_negative_keep_independent_history() {
    let c = coeffs();
    let mut st = FbAxisState::default();
    let _ = step(&mut st, (128 * 16), 100, c.lead_base, c.base_value);
    let o1 = step(&mut st, (160 * 16), 100, c.lead_base, c.base_value) as f64 / 256.0;
    assert!((o1 - 134.3984).abs() < TOL);

    let o2 = step(&mut st, (160 * 16), -100, c.lead_base, c.base_value) as f64 / 256.0;
    assert!((o2 - 160.0).abs() < TOL, "got {o2}");

    let o3 = step(&mut st, (160 * 16), 100, c.lead_base, c.base_value) as f64 / 256.0;
    assert!((o3 - 139.5156).abs() < TOL, "got {o3}");
}

#[test]
fn zero_param_does_not_refresh_positive_state() {
    let c = coeffs();
    let mut st = FbAxisState::default();
    let _ = step(&mut st, (128 * 16), 100, c.lead_base, c.base_value);
    let _ = step(&mut st, (160 * 16), 100, c.lead_base, c.base_value);
    let o = step(&mut st, (200 * 16), 0, c.lead_base, c.base_value) as f64 / 256.0;
    assert!((o - 200.0).abs() < TOL);
    let o2 = step(&mut st, (200 * 16), 100, c.lead_base, c.base_value) as f64 / 256.0;
    assert!((o2 - 147.5156).abs() < TOL, "got {o2}");
}

#[test]
fn zero_param_does_not_refresh_negative_state() {
    let c = coeffs();
    let mut st = FbAxisState::default();
    let _ = step(&mut st, (128 * 16), -100, c.lead_base, c.base_value);
    let _ = step(&mut st, (129 * 16), -100, c.lead_base, c.base_value);
    let o = step(&mut st, (140 * 16), 0, c.lead_base, c.base_value) as f64 / 256.0;
    assert!((o - 140.0).abs() < TOL);
    let o2 = step(&mut st, (140 * 16), -100, c.lead_base, c.base_value) as f64 / 256.0;
    assert!((o2 - 190.5547).abs() < TOL, "got {o2}");
}

#[test]
fn positive_branch_does_not_reuse_negative_history_on_first_use() {
    let c = coeffs();
    let mut st = FbAxisState::default();
    let _ = step(&mut st, (128 * 16), -100, c.lead_base, c.base_value);
    let _ = step(&mut st, (129 * 16), -100, c.lead_base, c.base_value);
    let o = step(&mut st, (129 * 16), 100, c.lead_base, c.base_value) as f64 / 256.0;
    assert!((o - 129.0).abs() < TOL, "got {o}");
}

#[test]
fn negative_divisors_divide_too() {
    let mut st = FbAxisState::default();
    step(&mut st, 100, 10, -30, -30);
    assert_eq!(step(&mut st, 200, 10, -30, -30), 4000);
    assert_eq!(st.pos_q4, 4000);
    step(&mut st, 100, -10, -30, -30);
    assert_eq!(step(&mut st, 200, -10, -30, -30), 6240);
    assert_eq!(st.neg_q4, 6240);
}
