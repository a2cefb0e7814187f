use hyperion_core::rc::{RcConfig, RcFilter, RcMode, RcStep, RcStickState};
use hyperion_core::scalar::Scalar;
use hyperion_core::stick::pipeline::{begin_report, flick_stash, stage_plan, RcAction, StickStage};
use hyperion_core::stick::stages::DeadZoneOutcome;
use hyperion_core::stick::{
    DeadZoneType, FlickStick, OutputCurve, StickDeadZone, StickSettings, StickState,
};

fn scalar(v: f64) -> Scalar {
    Scalar::from_bits(v.to_bits())
}

fn value(s: Scalar) -> f64 {
    f64::from_bits(s.to_bits())
}

fn ds4_sample(x: f64, y: f64) -> (f64, f64) {
    (x, y)
}

fn out_ds4(s: (f64, f64)) -> (f64, f64) {
    s
}

fn sixteenths(v: f64) -> i32 {
    (v * 16.0).round() as i32
}

fn prime(rc: &RcConfig, st: &mut RcStickState, s: (f64, f64)) {
    RcFilter.prime(rc, st, sixteenths(s.0), sixteenths(s.1), scalar(s.0), scalar(s.1));
}

fn filtered(rc: &RcConfig, st: &mut RcStickState, s: (f64, f64)) -> (f64, f64) {
    match RcFilter.process(rc, st, sixteenths(s.0), sixteenths(s.1), 0) {
        RcStep::Off => s,
        RcStep::Done { x, y } => (x as f64 / 256.0, y as f64 / 256.0),
        RcStep::Pending { .. } => panic!("the integer filter never waits"),
    }
}

fn process_stick(s: (f64, f64), cfg: &StickSettings, st: &mut StickState) -> (f64, f64) {
    let mut s = s;
    match begin_report(st, cfg, 4000) {
        RcAction::Off => {}
        RcAction::Prime => prime(&cfg.rc, &mut st.rc, s),
        RcAction::Process => s = filtered(&cfg.rc, &mut st.rc, s),
    }
    let plan = stage_plan(cfg);
    assert!(!plan.rotate && !plan.anti_snapback && !plan.fuzz && !plan.square && !plan.curve);
    match cfg.dead_zone.dead_zone_type {
        DeadZoneType::Radial => {
            assert_eq!(cfg.dead_zone.radial_outcome(false), DeadZoneOutcome::Pass)
        }
        DeadZoneType::Axial => {
            assert_eq!(cfg.dead_zone.x_axis.axial_outcome(false), DeadZoneOutcome::Pass);
            assert_eq!(cfg.dead_zone.y_axis.axial_outcome(false), DeadZoneOutcome::Pass);
        }
    }
    if plan.sensitivity {
        let gain = value(cfg.sensitivity);
        s = ((s.0 - 128.0) * gain + 128.0, (s.1 - 128.0) * gain + 128.0);
    }
    let (dx, dy) = (s.0 - 128.0, s.1 - 128.0);
    let engaged = dx.hypot(dy) / 127.0 > 0.8;
    flick_stash(st, plan.flick, engaged, scalar(dx.atan2(dy)), scalar(0.0));
    s
}

#[test]
fn default_settings_pass_through() {
    let cfg = StickSettings::default();
    let mut st = StickState::default();
    for &(dx, dy) in &[(128.0, 128.0), (255.0, 128.0), (40.0, 200.0), (0.0, 255.0)] {
        let s = ds4_sample(dx, dy);
        let out = process_stick(s, &cfg, &mut st);
        let (ox, oy) = out_ds4(out);
        assert!((ox - dx).abs() < 1e-9, "x in={dx} out={ox}");
        assert!((oy - dy).abs() < 1e-9, "y in={dy} out={oy}");
    }
}

#[test]
fn only_rc_on_matches_rc_filter_directly() {
    let rc = RcConfig {
        enabled: true,
        mode: RcMode::FireBirdInteger,
        use_dynamic_curve: false,
        period_us: 4000,
        fixed_param: 100,
        ..RcConfig::default()
    };
    let cfg = StickSettings {
        rc,
        rc_mode_on: true,
        ..StickSettings::default()
    };

    let mut ref_state = RcStickState::default();
    let mut st = StickState::default();

    let inputs = [128.0, 255.0, 200.0, 160.0, 128.0, 90.0, 255.0, 128.0];

    let mut first = true;
    for &inp in &inputs {
        let s = ds4_sample(inp, 128.0);
        let ref_out = if first {
            prime(&rc, &mut ref_state, s);
            first = false;
            s
        } else {
            filtered(&rc, &mut ref_state, s)
        };
        let proc_out = process_stick(s, &cfg, &mut st);
        let (rx, ry) = out_ds4(ref_out);
        let (px, py) = out_ds4(proc_out);
        assert!((rx - px).abs() < 1e-12, "inp={inp} ref={rx} proc={px}");
        assert!((ry - py).abs() < 1e-12, "inp={inp} ref={ry} proc={py}");
    }
}

#[test]
fn sensitivity_radial_only_through_pipeline() {
    let cfg = StickSettings {
        sensitivity: scalar(2.0),
        ..StickSettings::default()
    };
    let mut st = StickState::default();
    let out = process_stick(ds4_sample(160.0, 128.0), &cfg, &mut st);
    let (ox, _) = out_ds4(out);
    assert!((ox - 192.0).abs() < 1e-9, "ox={ox}");
}

#[test]
fn sensitivity_ignored_for_axial() {
    let cfg = StickSettings {
        sensitivity: scalar(2.0),
        dead_zone: StickDeadZone {
            dead_zone_type: DeadZoneType::Axial,
            ..StickDeadZone::default()
        },
        ..StickSettings::default()
    };
    let mut st = StickState::default();
    let out = process_stick(ds4_sample(160.0, 128.0), &cfg, &mut st);
    let (ox, _) = out_ds4(out);
    assert!((ox - 160.0).abs() < 1e-9, "ox={ox}");
}

#[test]
fn flick_stashes_delta_but_returns_abs_unchanged() {
    let cfg = StickSettings {
        flick: FlickStick {
            enabled: true,
            ..FlickStick::default()
        },
        ..StickSettings::default()
    };
    let mut st = StickState::default();
    let s = ds4_sample(255.0, 128.0);
    let out = process_stick(s, &cfg, &mut st);
    let (ox, _) = out_ds4(out);
    assert!((ox - 255.0).abs() < 1e-9, "ox={ox}");
    assert!(st.flick_in_progress);
}

#[test]
fn a_deselected_filter_is_seeded_anew() {
    let rc = RcConfig { enabled: true, mode: RcMode::FireBirdInteger, ..RcConfig::default() };
    let on = StickSettings { rc, rc_mode_on: true, ..StickSettings::default() };
    let off = StickSettings { rc_mode_on: false, ..on };
    let mut st = StickState::default();
    assert_eq!(begin_report(&mut st, &on, 10), RcAction::Prime);
    prime(&rc, &mut st.rc, (200.0, 128.0));
    assert_eq!(begin_report(&mut st, &on, 10), RcAction::Process);
    assert_eq!(begin_report(&mut st, &off, 10), RcAction::Off);
    assert_eq!(st.rc, RcStickState::default());
    assert_eq!(begin_report(&mut st, &on, 10), RcAction::Prime);
    assert_eq!(st.elapsed_us, 40);
}

#[test]
fn a_flick_turns_from_its_second_report() {
    let mut st = StickState::default();
    flick_stash(&mut st, true, true, scalar(0.5), scalar(9.0));
    assert_eq!(value(st.flick_delta), 0.0);
    flick_stash(&mut st, true, true, scalar(0.7), scalar(0.2));
    assert_eq!(value(st.flick_delta), 0.2);
    assert_eq!(value(st.flick_last_angle), 0.7);
    flick_stash(&mut st, true, false, scalar(0.9), scalar(0.2));
    assert!(!st.flick_in_progress);
    assert_eq!(value(st.flick_delta), 0.0);
}

#[test]
fn only_the_dead_zone_stage_runs_by_default() {
    let plan = stage_plan(&StickSettings::default());
    assert_eq!(plan.stages(), vec![StickStage::DeadZone]);
}

#[test]
fn stages_run_in_the_order_of_the_chain() {
    let mut cfg = StickSettings::default();
    cfg.rotation.angle_rad = scalar(0.5);
    cfg.anti_snapback.enabled = true;
    cfg.dead_zone.fuzz = 4;
    cfg.sensitivity = scalar(1.5);
    cfg.square.enabled = true;
    cfg.curve = OutputCurve::Quadratic;
    let plan = stage_plan(&cfg);
    assert_eq!(
        plan.stages(),
        vec![
            StickStage::Rotate,
            StickStage::AntiSnapback,
            StickStage::Fuzz,
            StickStage::DeadZone,
            StickStage::Sensitivity,
            StickStage::Square,
            StickStage::Curve,
        ]
    );
    assert!(plan.runs(StickStage::Square));
    assert_eq!(StickStage::at(3), StickStage::DeadZone);
}
