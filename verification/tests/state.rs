use hyperion_core::input::state::encode_dpad_hat;
use hyperion_core::input::{Control, ControllerState, ReportMeta, Thresholds};
use hyperion_core::scalar::Scalar;

fn scalar(v: f64) -> Scalar {
    Scalar::from_bits(v.to_bits())
}

fn value(s: Scalar) -> f64 {
    f64::from_bits(s.to_bits())
}

fn neutral() -> ControllerState {
    ControllerState::default()
}

fn ring(s: &ControllerState) -> Scalar {
    scalar(value(s.lx).hypot(value(s.ly)).min(1.0))
}

#[test]
fn analog_half_axes_split_sign() {
    let mut s = neutral();
    s.lx = scalar(0.6);
    assert_eq!(value(s.analog(Control::LxPos)), 0.6);
    assert_eq!(value(s.analog(Control::LxNeg)), 0.0);
    s.lx = scalar(-0.4);
    assert_eq!(value(s.analog(Control::LxPos)), 0.0);
    assert!((value(s.analog(Control::LxNeg)) - 0.4).abs() < 1e-12);
    s.ry = scalar(0.9);
    assert!((value(s.analog(Control::RyPos)) - 0.9).abs() < 1e-12);
    assert_eq!(value(s.analog(Control::RyNeg)), 0.0);
}

#[test]
fn pressed_axis_threshold_at_55_over_127() {
    let t = Thresholds::default();
    let mut s = neutral();
    s.lx = scalar(55.0 / 127.0 - 1e-9);
    assert!(!s.pressed(Control::LxPos, &t));
    s.lx = scalar(55.0 / 127.0);
    assert!(s.pressed(Control::LxPos, &t));
    s.lx = scalar(55.0 / 127.0 + 1e-6);
    assert!(s.pressed(Control::LxPos, &t));
}

#[test]
fn pressed_trigger_threshold_at_100_over_255() {
    let t = Thresholds::default();
    let mut s = neutral();
    s.l2 = scalar(100.0 / 255.0 - 1e-9);
    assert!(!s.pressed(Control::L2, &t));
    s.l2 = scalar(100.0 / 255.0);
    assert!(s.pressed(Control::L2, &t));
}

#[test]
fn full_pull_requires_raw_255() {
    let t = Thresholds::default();
    let mut s = neutral();
    s.r2 = scalar(1.0);
    s.r2_raw = 254;
    assert!(!s.pressed(Control::R2FullPull, &t));
    s.r2_raw = 255;
    assert!(s.pressed(Control::R2FullPull, &t));
}

#[test]
fn pressed_reads_digital_buttons() {
    let t = Thresholds::default();
    let mut s = neutral();
    assert!(!s.pressed(Control::Cross, &t));
    s.cross = true;
    assert!(s.pressed(Control::Cross, &t));
    s.dpad_up = true;
    assert!(s.pressed(Control::DpadUp, &t));
}

#[test]
fn to_input_sample_reproduces_sticks_triggers_seq_dt() {
    let mut s = neutral();
    s.lx = scalar(0.123_456_789);
    s.ly = scalar(-0.987_654_321);
    s.rx = scalar(0.5);
    s.ry = scalar(-0.25);
    s.l2 = scalar(0.4);
    s.r2 = scalar(0.6);
    let m = ReportMeta {
        seq: 42,
        dropped: 3,
        is_duplicate: true,
        dt_us: scalar(16.0 / 3.0),
        host_qpc_ns: 9_999,
    };
    let smp = s.to_input_sample(&m);
    assert_eq!(value(smp.left.x), 0.123_456_789);
    assert_eq!(value(smp.left.y), -0.987_654_321);
    assert_eq!(value(smp.right.x), 0.5);
    assert_eq!(value(smp.right.y), -0.25);
    assert_eq!(value(smp.l2), 0.4);
    assert_eq!(value(smp.r2), 0.6);
    assert_eq!(smp.seq, 42);
    assert_eq!(smp.dropped, 3);
    assert!(smp.is_duplicate);
    assert_eq!(value(smp.dt_us), 16.0 / 3.0);
    assert_eq!(smp.host_qpc_ns, 9_999);
}

#[test]
fn to_input_sample_button_packing_matches_ds_layout() {
    let mut s = neutral();
    s.cross = true;
    s.l1 = true;
    s.options = true;
    s.ps = true;
    s.touch_button = true;
    s.dpad_up = true;
    let raw = s.to_input_sample(&ReportMeta::default()).buttons.0;
    let btn0 = (raw & 0xFF) as u8;
    let btn1 = ((raw >> 8) & 0xFF) as u8;
    let btn2 = ((raw >> 16) & 0xFF) as u8;
    assert_eq!(btn0 & 0x0F, 0, "hat nibble = N (0)");
    assert_eq!(btn0 & 0x20, 0x20, "cross bit");
    assert_eq!(btn1 & 0x01, 0x01, "L1 bit");
    assert_eq!(btn1 & 0x20, 0x20, "options bit");
    assert_eq!(btn2 & 0x01, 0x01, "PS bit");
    assert_eq!(btn2 & 0x02, 0x02, "touch button bit");
}

#[test]
fn dpad_hat_encode_decode_round_trips_all_directions() {
    let cases = [
        (true, false, false, false, 0u8),
        (true, true, false, false, 1),
        (false, true, false, false, 2),
        (false, true, true, false, 3),
        (false, false, true, false, 4),
        (false, false, true, true, 5),
        (false, false, false, true, 6),
        (true, false, false, true, 7),
        (false, false, false, false, 8),
    ];
    for (u, r, d, l, want) in cases {
        assert_eq!(encode_dpad_hat(u, r, d, l), want, "({u},{r},{d},{l})");
    }
}

#[test]
fn analog_triggers_and_outer_ring() {
    let mut s = neutral();
    s.l2 = scalar(0.75);
    assert_eq!(value(s.analog(Control::L2)), 0.75);
    assert_eq!(value(s.analog(Control::L2FullPull)), 0.75);
    s.lx = scalar(0.6);
    s.ly = scalar(0.8);
    s.ls_ring = ring(&s);
    assert!((value(s.analog(Control::LsOuter)) - 1.0).abs() < 1e-12);
    s.lx = scalar(1.0);
    s.ly = scalar(1.0);
    s.ls_ring = ring(&s);
    assert_eq!(value(s.analog(Control::LsOuter)), 1.0);
}
