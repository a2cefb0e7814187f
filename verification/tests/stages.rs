use hyperion_core::scalar::Scalar;
use hyperion_core::stick::stages::{
    anti_snapback, fuzz, open_window, precision_piece, DeadZoneOutcome, PrecisionPiece,
};
use hyperion_core::stick::{AntiSnapback, DeadZoneType, SnapbackRing, StickDeadZone};

fn scalar(v: f64) -> Scalar {
    Scalar::from_bits(v.to_bits())
}

fn value(s: Scalar) -> f64 {
    f64::from_bits(s.to_bits())
}

fn shown(outcome: DeadZoneOutcome, v: f64) -> f64 {
    match outcome {
        DeadZoneOutcome::Pass => v,
        DeadZoneOutcome::Centre => 128.0,
        DeadZoneOutcome::Scale => panic!("no position here is rescaled"),
    }
}

fn dead_zone(x: f64, y: f64, info: &StickDeadZone) -> (f64, f64) {
    let (dx, dy) = (x - 128.0, y - 128.0);
    match info.dead_zone_type {
        DeadZoneType::Radial => {
            let out = info.radial_outcome(dx.hypot(dy) <= info.dead_zone as f64);
            (shown(out, x), shown(out, y))
        }
        DeadZoneType::Axial => (
            shown(info.x_axis.axial_outcome(dx.abs() <= info.x_axis.dead_zone as f64), x),
            shown(info.y_axis.axial_outcome(dy.abs() <= info.y_axis.dead_zone as f64), y),
        ),
    }
}

fn fuzzed(last: &mut [Scalar; 2], primed: &mut bool, delta: i32, x: f64, y: f64) -> (f64, f64) {
    let (dx, dy) = (x - value(last[0]), y - value(last[1]));
    let moved = dx * dx + dy * dy > (delta * delta) as f64;
    let (ux, uy) = fuzz(last, primed, moved, scalar(x), scalar(y));
    (value(ux), value(uy))
}

fn snapped(hist: &mut SnapbackRing, cfg: &AntiSnapback, x: f64, y: f64, t: i64) -> (f64, f64) {
    open_window(hist, cfg, t);
    let mut crossed = false;
    for i in 0..hist.len() {
        let s = hist.get(i).unwrap();
        let from = value(s.x) - 128.0;
        let far = (x - value(s.x)).hypot(y - value(s.y)) >= value(cfg.delta);
        crossed |= far && from * (x - 128.0) < 0.0;
    }
    let (ux, uy) = anti_snapback(hist, crossed, scalar(x), scalar(y), t);
    (value(ux), value(uy))
}

#[test]
fn radial_deadzone_neutral_passthrough_when_off() {
    let info = StickDeadZone::default();
    assert_eq!(dead_zone(128.0, 128.0, &info), (128.0, 128.0));
    assert_eq!(dead_zone(200.0, 100.0, &info), (200.0, 100.0));
}

#[test]
fn radial_deadzone_inside_snaps_to_neutral() {
    let info = StickDeadZone {
        dead_zone: 20,
        ..StickDeadZone::default()
    };
    let (nx, ny) = dead_zone(138.0, 128.0, &info);
    assert_eq!((nx, ny), (128.0, 128.0));
}

#[test]
fn axial_deadzone_per_axis() {
    let mut info = StickDeadZone {
        dead_zone_type: DeadZoneType::Axial,
        ..StickDeadZone::default()
    };
    info.x_axis.dead_zone = 30;
    let (nx, ny) = dead_zone(150.0, 200.0, &info);
    assert_eq!(nx, 128.0);
    assert_eq!(ny, 200.0);
}

#[test]
fn fuzz_holds_then_releases() {
    let mut last = [scalar(0.0); 2];
    let mut primed = false;
    let (x0, y0) = fuzzed(&mut last, &mut primed, 5, 150.0, 150.0);
    assert_eq!((x0, y0), (150.0, 150.0));
    let (x1, y1) = fuzzed(&mut last, &mut primed, 5, 153.0, 150.0);
    assert_eq!((x1, y1), (150.0, 150.0));
    let (x2, _) = fuzzed(&mut last, &mut primed, 5, 160.0, 150.0);
    assert_eq!(x2, 160.0);
}

#[test]
fn fuzz_endpoint_passthrough() {
    let mut last = [scalar(128.0); 2];
    let mut primed = true;
    let (x, _) = fuzzed(&mut last, &mut primed, 100, 0.0, 128.0);
    assert_eq!(x, 0.0);
}

#[test]
fn fuzz_lets_an_end_through_below_the_threshold() {
    let mut last = [scalar(3.0), scalar(128.0)];
    let mut primed = true;
    assert_eq!(fuzzed(&mut last, &mut primed, 100, 0.0, 130.0), (0.0, 128.0));
    assert_eq!((value(last[0]), value(last[1])), (0.0, 128.0));
}

#[test]
fn anti_snapback_snaps_on_crossing() {
    let mut hist = SnapbackRing::default();
    let cfg = AntiSnapback {
        enabled: true,
        delta: scalar(50.0),
        timeout_ms: 100,
    };
    let _ = snapped(&mut hist, &cfg, 240.0, 128.0, 0);
    let (nx, ny) = snapped(&mut hist, &cfg, 20.0, 128.0, 1000);
    assert_eq!((nx, ny), (128.0, 128.0));
}

#[test]
fn anti_snapback_passes_normal_motion() {
    let mut hist = SnapbackRing::default();
    let cfg = AntiSnapback {
        enabled: true,
        delta: scalar(50.0),
        timeout_ms: 100,
    };
    let _ = snapped(&mut hist, &cfg, 130.0, 128.0, 0);
    let (nx, _) = snapped(&mut hist, &cfg, 135.0, 128.0, 1000);
    assert_eq!(nx, 135.0);
}

#[test]
fn the_window_forgets_old_positions() {
    let mut hist = SnapbackRing::default();
    let cfg = AntiSnapback { enabled: true, delta: scalar(50.0), timeout_ms: 100 };
    snapped(&mut hist, &cfg, 240.0, 128.0, 0);
    assert_eq!(snapped(&mut hist, &cfg, 20.0, 128.0, 200_000), (20.0, 128.0));
    assert_eq!(hist.len(), 1);
}

#[test]
fn any_further_setting_rescales() {
    let info = StickDeadZone { max_zone: 90, ..StickDeadZone::default() };
    assert_eq!(info.radial_outcome(true), DeadZoneOutcome::Scale);
    let info = StickDeadZone { dead_zone: 5, max_zone: 90, ..StickDeadZone::default() };
    assert_eq!(info.radial_outcome(true), DeadZoneOutcome::Centre);
    assert_eq!(info.radial_outcome(false), DeadZoneOutcome::Scale);
}

#[test]
fn the_precision_curve_has_three_pieces() {
    assert_eq!(precision_piece(scalar(0.4)), PrecisionPiece::Fine);
    assert_eq!(precision_piece(scalar(0.41)), PrecisionPiece::Middle);
    assert_eq!(precision_piece(scalar(0.75)), PrecisionPiece::Middle);
    assert_eq!(precision_piece(scalar(0.76)), PrecisionPiece::Coarse);
    assert_eq!(precision_piece(scalar(f64::NAN)), PrecisionPiece::Coarse);
}
