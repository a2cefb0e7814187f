use hyperion_core::scalar::Scalar;
use hyperion_core::stick::{
    AntiSnapback, DeadZoneType, OutputCurve, SnapbackRing, SquareStick, StickDeadZone,
    StickSettings, StickState, SNAP_CAP,
};

fn scalar(v: f64) -> Scalar {
    Scalar::from_bits(v.to_bits())
}

fn value(s: Scalar) -> f64 {
    f64::from_bits(s.to_bits())
}

fn each(ring: &SnapbackRing, mut f: impl FnMut(f64, i64)) {
    for i in 0..ring.len() {
        let s = ring.get(i).unwrap();
        f(value(s.x), s.t_us);
    }
}

#[test]
fn default_settings_are_passthrough() {
    let s = StickSettings::default();
    assert_eq!(value(s.sensitivity), 1.0);
    assert!(!s.rc_mode_on);
    assert!(!s.rc.enabled);
    assert_eq!(s.dead_zone.dead_zone, 0);
    assert_eq!(s.dead_zone.anti_dead_zone, 0);
    assert_eq!(s.dead_zone.max_zone, 100);
    assert_eq!(value(s.dead_zone.max_output), 100.0);
    assert_eq!(s.dead_zone.fuzz, 0);
    assert_eq!(value(s.dead_zone.vertical_scale), 100.0);
    assert_eq!(s.dead_zone.dead_zone_type, DeadZoneType::Radial);
    assert!(!s.anti_snapback.enabled);
    assert!(!s.square.enabled);
    assert_eq!(s.curve, OutputCurve::Linear);
    assert!(!s.flick.enabled);
}

#[test]
fn curve_discriminants_match_csharp() {
    assert_eq!(OutputCurve::Linear.mode(), 0);
    assert_eq!(OutputCurve::EnhancedPrecision.mode(), 1);
    assert_eq!(OutputCurve::Quadratic.mode(), 2);
    assert_eq!(OutputCurve::Cubic.mode(), 3);
    assert_eq!(OutputCurve::EaseoutQuad.mode(), 4);
    assert_eq!(OutputCurve::EaseoutCubic.mode(), 5);
    assert_eq!(OutputCurve::Bezier.mode(), 6);
    assert_eq!(OutputCurve::ApexClassicInverse.mode(), 7);
    assert_eq!(OutputCurve::ApexClassicInverseAxial.mode(), 8);
}

#[test]
fn clamped_enforces_ranges() {
    let s = StickSettings {
        sensitivity: scalar(2.0),
        dead_zone: StickDeadZone {
            dead_zone: 200,
            anti_dead_zone: 150,
            max_zone: 0,
            max_output: scalar(200.0),
            fuzz: -5,
            vertical_scale: scalar(-10.0),
            ..StickDeadZone::default()
        },
        anti_snapback: AntiSnapback {
            delta: scalar(-1.0),
            timeout_ms: -5,
            ..AntiSnapback::default()
        },
        square: SquareStick {
            roundness: scalar(0.2),
            ..SquareStick::default()
        },
        ..StickSettings::default()
    };
    let c = s.clamped();
    assert_eq!(c.dead_zone.dead_zone, 127);
    assert_eq!(c.dead_zone.anti_dead_zone, 100);
    assert_eq!(c.dead_zone.max_zone, 1);
    assert_eq!(value(c.dead_zone.max_output), 100.0);
    assert_eq!(c.dead_zone.fuzz, 0);
    assert_eq!(value(c.dead_zone.vertical_scale), 0.0);
    assert_eq!(value(c.anti_snapback.delta), 0.0);
    assert_eq!(c.anti_snapback.timeout_ms, 0);
    assert_eq!(value(c.square.roundness), 1.0);
    assert_eq!(value(c.sensitivity), 2.0);
}

#[test]
fn snapback_ring_prunes_and_caps() {
    let mut r = SnapbackRing::default();
    for i in 0..10i64 {
        r.push(scalar(i as f64), scalar(0.0), i);
    }
    assert_eq!(r.len(), 10);
    r.prune_older_than(5);
    assert_eq!(r.len(), 5);
    let mut first = None;
    each(&r, |x, t| {
        if first.is_none() {
            first = Some((x, t));
        }
    });
    assert_eq!(first, Some((5.0, 5)));

    let mut r2 = SnapbackRing::default();
    for i in 0..(SNAP_CAP as i64 + 50) {
        r2.push(scalar(i as f64), scalar(0.0), i);
    }
    assert_eq!(r2.len(), SNAP_CAP);
    let mut min_t = i64::MAX;
    each(&r2, |_, t| min_t = min_t.min(t));
    assert_eq!(min_t, 50);
}

#[test]
fn settings_default_state_is_clean() {
    let st = StickState::default();
    assert!(!st.rc_primed);
    assert_eq!(st.elapsed_us, 0);
    assert!(!st.fuzz_primed);
    assert_eq!(st.fuzz_last.map(value), [0.0, 0.0]);
    assert!(st.snap_hist.is_empty());
    assert!(!st.flick_in_progress);
    assert_eq!(value(st.flick_delta), 0.0);
}

#[test]
fn clamping_settles() {
    let wild = StickSettings {
        dead_zone: StickDeadZone { dead_zone: -4, max_zone: 900, ..StickDeadZone::default() },
        ..StickSettings::default()
    };
    let once = wild.clamped();
    assert_eq!(once.clamped(), once);
    assert_eq!(StickSettings::default().clamped(), StickSettings::default());
}
