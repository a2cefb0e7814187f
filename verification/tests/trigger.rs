use hyperion_core::scalar::Scalar;
use hyperion_core::trigger::{
    process_trigger, process_trigger_staged, TriggerCurve, TriggerMode, TriggerOutput,
    TriggerSettings, TriggerState,
};

fn scalar(v: f64) -> Scalar {
    Scalar::from_bits(v.to_bits())
}

fn value(s: Scalar) -> f64 {
    f64::from_bits(s.to_bits())
}

fn approx(a: f64, b: f64) -> bool {
    (a - b).abs() < 1e-9
}

fn level(raw: f64) -> u8 {
    (raw * 255.0).floor() as u8
}

fn staged(raw: f64, cfg: &TriggerSettings, st: &mut TriggerState) -> TriggerOutput {
    process_trigger_staged(level(raw), scalar(raw), cfg, st, 4000)
}

fn pull(raw: f64, cfg: &TriggerSettings, st: &mut TriggerState) -> (f64, bool) {
    assert!(!cfg.chain().multiplied && !cfg.chain().curved);
    let (a, p) = process_trigger(level(raw), scalar(raw), cfg, st, 4000);
    (value(a), p)
}

#[test]
fn default_passes_through_analog() {
    let cfg = TriggerSettings::default();
    let mut st = TriggerState::default();
    for raw in [0.0, 0.25, 0.5, 1.0] {
        let (a, _) = pull(raw, &cfg, &mut st);
        assert!(approx(a, raw), "raw={raw} a={a}");
    }
}

#[test]
fn default_button_threshold_100_255() {
    let cfg = TriggerSettings::default();
    let mut st = TriggerState::default();
    let (_, p0) = pull(99.0 / 255.0, &cfg, &mut st);
    assert!(!p0);
    let (_, p1) = pull(100.0 / 255.0, &cfg, &mut st);
    assert!(p1);
}

#[test]
fn button_uses_max_of_threshold_and_deadzone() {
    let cfg = TriggerSettings {
        dead_zone: 200,
        button_threshold: 100,
        ..TriggerSettings::default()
    };
    let mut st = TriggerState::default();
    let (_, p0) = pull(150.0 / 255.0, &cfg, &mut st);
    assert!(!p0);
    let (_, p1) = pull(210.0 / 255.0, &cfg, &mut st);
    assert!(p1);
}

#[test]
fn curve_mode_discriminants() {
    assert_eq!(TriggerCurve::Linear.mode(), 0);
    assert_eq!(TriggerCurve::Bezier.mode(), 6);
    assert_eq!(TriggerCurve::ApexClassicInverse.mode(), 7);
    assert_eq!(TriggerCurve::ApexClassicInverseAxial.mode(), 8);
}

#[test]
fn trigger_default_state_is_clean() {
    let st = TriggerState::default();
    assert!(!st.last_pressed);
    assert_eq!(st.elapsed_us, 0);
    assert!(!st.hip_active);
    assert_eq!(st.hip_start_us, 0);
}

#[test]
fn default_mode_is_normal_and_byte_identical() {
    let cfg = TriggerSettings::default();
    assert_eq!(cfg.mode, TriggerMode::Normal);
    let mut st = TriggerState::default();
    let mut st2 = TriggerState::default();
    for raw in [0.0, 99.0 / 255.0, 100.0 / 255.0, 0.5, 1.0] {
        let out = staged(raw, &cfg, &mut st);
        let (a, p) = pull(raw, &cfg, &mut st2);
        assert_eq!(out.soft_pull, out.full_pull, "Normal: soft == full");
        assert!(approx(value(out.analog), a));
        assert_eq!(out.soft_pull || out.full_pull, p);
    }
}

#[test]
fn two_stage_soft_then_full() {
    let cfg = TriggerSettings {
        mode: TriggerMode::TwoStage,
        soft_threshold: 60,
        ..TriggerSettings::default()
    };
    let mut st = TriggerState::default();
    let o0 = staged(50.0 / 255.0, &cfg, &mut st);
    assert!(!o0.soft_pull && !o0.full_pull);
    let o1 = staged(150.0 / 255.0, &cfg, &mut st);
    assert!(o1.soft_pull && !o1.full_pull, "soft engaged, full not yet");
    let o2 = staged(1.0, &cfg, &mut st);
    assert!(
        o2.soft_pull && o2.full_pull,
        "full pull engages both stages"
    );
}

#[test]
fn two_stage_full_requires_raw_255() {
    let cfg = TriggerSettings {
        mode: TriggerMode::TwoStage,
        soft_threshold: 40,
        ..TriggerSettings::default()
    };
    let mut st = TriggerState::default();
    let o = staged(254.0 / 255.0, &cfg, &mut st);
    assert!(o.soft_pull && !o.full_pull);
}

#[test]
fn hip_fire_fast_full_pull_suppresses_soft() {
    let cfg = TriggerSettings {
        mode: TriggerMode::HipFire,
        soft_threshold: 60,
        hip_fire_us: 100_000,
        ..TriggerSettings::default()
    }
    .clamped();
    let mut st = TriggerState::default();
    let o = staged(1.0, &cfg, &mut st);
    assert!(o.full_pull && !o.soft_pull, "fast full pull -> full only");
}

#[test]
fn hip_fire_held_soft_fires_after_window() {
    let cfg = TriggerSettings {
        mode: TriggerMode::HipFire,
        soft_threshold: 60,
        hip_fire_us: 10_000,
        ..TriggerSettings::default()
    }
    .clamped();
    let mut st = TriggerState::default();
    let soft = 150.0 / 255.0;
    for report in 1..=3 {
        let o = staged(soft, &cfg, &mut st);
        assert!(
            !o.soft_pull && !o.full_pull,
            "still racing at report {report}"
        );
    }
    let o4 = staged(soft, &cfg, &mut st);
    assert!(o4.soft_pull && !o4.full_pull, "soft fires after the window");
}

#[test]
fn hip_fire_release_recloses_window() {
    let cfg = TriggerSettings {
        mode: TriggerMode::HipFire,
        soft_threshold: 60,
        hip_fire_us: 10_000,
        ..TriggerSettings::default()
    }
    .clamped();
    let mut st = TriggerState::default();
    let soft = 150.0 / 255.0;
    for _ in 0..4 {
        staged(soft, &cfg, &mut st);
    }
    assert!(st.hip_active);
    let rel = staged(0.0, &cfg, &mut st);
    assert!(!rel.soft_pull && !rel.full_pull && !st.hip_active);
    let o = staged(1.0, &cfg, &mut st);
    assert!(
        o.full_pull && !o.soft_pull,
        "re-engaged window suppresses soft"
    );
}

#[test]
fn clamped_floors_hip_fire_window() {
    let cfg = TriggerSettings {
        hip_fire_us: 0,
        ..TriggerSettings::default()
    }
    .clamped();
    assert_eq!(cfg.hip_fire_us, 1_000, "hip-fire window floors at 1ms");
}

#[test]
fn unknown_mode_behaves_like_normal() {
    let cfg = TriggerSettings {
        mode: TriggerMode::Unknown,
        ..TriggerSettings::default()
    };
    let mut st = TriggerState::default();
    let o = staged(0.5, &cfg, &mut st);
    assert_eq!(
        o.soft_pull, o.full_pull,
        "Unknown degrades to a single stage"
    );
}

#[test]
fn a_chain_runs_only_where_it_changes_something() {
    let plain = TriggerSettings::default().chain();
    assert!(!plain.rescaled && !plain.capped && !plain.multiplied && !plain.curved);
    let dz = TriggerSettings { dead_zone: 50, ..TriggerSettings::default() }.chain();
    assert!(dz.rescaled && !dz.capped);
    let cap = TriggerSettings { max_output: scalar(50.0), ..TriggerSettings::default() }.chain();
    assert!(cap.rescaled && cap.capped);
    let gain = TriggerSettings { sensitivity: scalar(2.0), ..TriggerSettings::default() }.chain();
    assert!(gain.multiplied && !gain.rescaled);
    let bent = TriggerSettings { curve: TriggerCurve::Quadratic, ..TriggerSettings::default() }.chain();
    assert!(bent.curved);
}

#[test]
fn trigger_settings_clamp_every_field() {
    let c = TriggerSettings {
        anti_dead_zone: -1,
        max_zone: 0,
        max_output: scalar(250.0),
        hip_fire_us: u32::MAX,
        ..TriggerSettings::default()
    }
    .clamped();
    assert_eq!((c.anti_dead_zone, c.max_zone, c.hip_fire_us), (0, 1, 5_000_000));
    assert_eq!(value(c.max_output), 100.0);
    assert_eq!(c.clamped(), c);
}
