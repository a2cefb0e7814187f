use hyperion_core::mouse_accum::{carries_always, AxisMotion, CarryCfg, MouseAccumulator};
use hyperion_core::scalar::Scalar;

fn cfg_carry() -> CarryCfg {
    CarryCfg { least_sq: None, invert_x: false, invert_y: false }
}

fn motion(px: f64) -> AxisMotion {
    let sign = if px > 0.0 {
        1
    } else if px < 0.0 {
        -1
    } else {
        0
    };
    AxisMotion { hundredths: (px * 100.0).trunc() as i64, sign }
}

fn step(acc: &mut MouseAccumulator, x: f64, y: f64, cfg: &CarryCfg) -> (i32, i32) {
    acc.finalize(motion(x), motion(y), cfg)
}

#[test]
fn carry_accumulates_point_four_times_three() {
    let cfg = cfg_carry();
    let mut acc = MouseAccumulator::new();

    let nudge = CarryCfg { ..cfg };
    let (dx1, _) = step(&mut acc, 0.4, 0.0, &nudge);
    assert_eq!(dx1, 0, "first 0.4 -> 0 px");
    let (dx2, _) = step(&mut acc, 0.4, 0.0, &nudge);
    assert_eq!(dx2, 0, "second 0.4 (0.8 total) -> 0 px");
    let (dx3, _) = step(&mut acc, 0.4, 0.0, &nudge);
    assert_eq!(dx3, 1, "third 0.4 (1.2 total) -> 1 px");
    let h = acc.remainder().0 as f64 / 100.0;
    assert!(
        (h - 0.2).abs() < 1e-9,
        "remainder after carry ≈ 0.2, got {h}"
    );
}

#[test]
fn min_threshold_defers_then_emits() {
    let cfg = CarryCfg { least_sq: Some(300 * 300), ..cfg_carry() };
    let mut acc = MouseAccumulator::new();
    let (dx1, _) = step(&mut acc, 2.0, 0.0, &cfg);
    assert_eq!(dx1, 0, "2px is short of 3px -> deferred");
    let h = acc.remainder().0 as f64 / 100.0;
    assert!(
        (h - 2.0).abs() < 1e-9,
        "full motion held as remainder, got {h}"
    );
    let (dx2, _) = step(&mut acc, 2.0, 0.0, &cfg);
    assert_eq!(dx2, 4, "accumulated 4px is enough -> emits");
}

#[test]
fn sign_flip_resets_remainder() {
    let cfg = CarryCfg { ..cfg_carry() };
    let mut acc = MouseAccumulator::new();
    let _ = step(&mut acc, 0.6, 0.0, &cfg);
    let h0 = acc.remainder().0 as f64 / 100.0;
    assert!((h0 - 0.6).abs() < 1e-9);
    let (dxn, _) = step(&mut acc, -0.3, 0.0, &cfg);
    assert_eq!(dxn, 0);
    let hn = acc.remainder().0 as f64 / 100.0;
    assert!(
        (hn + 0.3).abs() < 1e-9,
        "sign flip reset the carry, got {hn}"
    );
}

#[test]
fn reset_clears_remainder() {
    let cfg = cfg_carry();
    let mut acc = MouseAccumulator::new();
    let _ = step(&mut acc, 0.7, 0.7, &cfg);
    assert_ne!(acc.remainder(), (0, 0));
    acc.reset();
    assert_eq!(acc.remainder(), (0, 0));
    assert_eq!(acc, MouseAccumulator::default());
}

#[test]
fn accumulator_is_copy_and_default_clean() {
    fn assert_copy<T: Copy>() {}
    assert_copy::<MouseAccumulator>();
    let a = MouseAccumulator::default();
    assert_eq!(a.remainder(), (0, 0));
}

#[test]
fn inversion_turns_the_pixels_only() {
    let cfg = CarryCfg { invert_x: true, invert_y: true, ..cfg_carry() };
    let mut acc = MouseAccumulator::new();
    assert_eq!(step(&mut acc, 2.5, -3.5, &cfg), (-2, 3));
    assert_eq!(acc.remainder(), (50, -50));
}

#[test]
fn splitting_a_motion_loses_nothing() {
    let mut acc = MouseAccumulator::new();
    let mut sum = 0;
    for _ in 0..100 {
        sum += step(&mut acc, 0.25, 0.0, &cfg_carry()).0;
    }
    assert_eq!(sum, 25);
}

#[test]
fn one_stands_for_no_threshold() {
    assert!(carries_always(Scalar::from_bits(1.0f64.to_bits())));
    assert!(!carries_always(Scalar::from_bits(1.5f64.to_bits())));
}

fn stick_step(
    acc: &mut MouseAccumulator,
    nx: f64,
    ny: f64,
    elapsed_s: f64,
    sensitivity: f64,
    cfg: &CarryCfg,
) -> (i32, i32) {
    let pace = sensitivity * 48.0 * elapsed_s * 1000.0;
    step(acc, nx * pace, -ny * pace, cfg)
}

#[test]
fn invert_flags_negate_output() {
    let base = CarryCfg { ..cfg_carry() };
    let mut a = MouseAccumulator::new();
    let (dx, dy) = stick_step(&mut a, 1.0, 1.0, 0.01, 100.0, &base);
    assert!(
        dx > 0 && dy < 0,
        "stick up-right -> mouse right & up(-y): ({dx},{dy})"
    );

    let inv = CarryCfg { invert_x: true, invert_y: true, ..base };
    let mut b = MouseAccumulator::new();
    let (idx, idy) = stick_step(&mut b, 1.0, 1.0, 0.01, 100.0, &inv);
    assert_eq!((idx, idy), (-dx, -dy), "invert negates both axes");
}

#[test]
fn no_deflection_no_motion_no_remainder() {
    let cfg = cfg_carry();
    let mut acc = MouseAccumulator::new();
    let (dx, dy) = stick_step(&mut acc, 0.0, 0.0, 0.01, 1.0, &cfg);
    assert_eq!((dx, dy), (0, 0));
    assert_eq!(acc.remainder(), (0, 0));
}

#[test]
fn pixels_saturate_and_the_rest_is_carried() {
    let cfg = cfg_carry();
    let mut acc = MouseAccumulator::new();
    let far = AxisMotion { hundredths: 300_000_000_000, sign: 1 };
    let still = AxisMotion { hundredths: 0, sign: 0 };
    assert_eq!(acc.finalize(far, still, &cfg), (i32::MAX, 0));
    let rest = 300_000_000_000 - 100 * i64::from(i32::MAX);
    assert_eq!(acc.remainder(), (rest, 0));
    let nudge = AxisMotion { hundredths: 100, sign: 1 };
    assert_eq!(acc.finalize(nudge, still, &cfg), (((rest + 100) / 100) as i32, 0));

    let mut acc = MouseAccumulator::new();
    let end = AxisMotion { hundredths: i64::MIN, sign: -1 };
    assert_eq!(acc.finalize(end, end, &cfg), (i32::MIN, i32::MIN));
    assert_eq!(acc.finalize(end, end, &cfg), (i32::MIN, i32::MIN));
    let inverted = CarryCfg { invert_x: true, least_sq: Some(u64::MAX), ..cfg };
    assert_eq!(acc.finalize(end, end, &inverted), (i32::MAX, i32::MIN));
}
