use hyperion_core::input::ControllerState;
use hyperion_core::output::state::{
    XI_A, XI_B, XI_BACK, XI_DPAD_UP, XI_GUIDE, XI_LSHOULDER, XI_LTHUMB, XI_RSHOULDER, XI_RTHUMB,
    XI_START, XI_X, XI_Y,
};
use hyperion_core::output::{OutputFrame, OutputState, PadButtons};
use hyperion_core::scalar::Scalar;

fn scalar(v: f64) -> Scalar {
    Scalar::from_bits(v.to_bits())
}

fn value(s: Scalar) -> f64 {
    f64::from_bits(s.to_bits())
}

fn blank() -> ControllerState {
    ControllerState::default()
}

#[test]
fn passthrough_button_packing_matches_legacy() {
    let mut s = blank();
    s.cross = true;
    s.circle = true;
    s.square = true;
    s.triangle = true;
    s.l1 = true;
    s.r1 = true;
    s.share = true;
    s.options = true;
    s.ps = true;
    s.l3 = true;
    s.r3 = true;
    s.dpad_up = true;
    let frame = OutputState::passthrough(&s).to_output_frame();
    let v = frame.buttons;
    assert_eq!(v & XI_A, XI_A);
    assert_eq!(v & XI_B, XI_B);
    assert_eq!(v & XI_X, XI_X);
    assert_eq!(v & XI_Y, XI_Y);
    assert_eq!(v & XI_LSHOULDER, XI_LSHOULDER);
    assert_eq!(v & XI_RSHOULDER, XI_RSHOULDER);
    assert_eq!(v & XI_BACK, XI_BACK);
    assert_eq!(v & XI_START, XI_START);
    assert_eq!(v & XI_GUIDE, XI_GUIDE);
    assert_eq!(v & XI_LTHUMB, XI_LTHUMB);
    assert_eq!(v & XI_RTHUMB, XI_RTHUMB);
    assert_eq!(v & XI_DPAD_UP, XI_DPAD_UP);
}

#[test]
fn passthrough_carries_sticks_and_triggers_bit_identically() {
    let mut s = blank();
    s.lx = scalar(0.123_456_789);
    s.ly = scalar(-0.5);
    s.rx = scalar(1.0);
    s.ry = scalar(-1.0);
    s.l2 = scalar(0.4);
    s.r2 = scalar(0.6);
    let frame = OutputState::passthrough(&s).to_output_frame();
    assert_eq!(value(frame.lx), 0.123_456_789);
    assert_eq!(value(frame.ly), -0.5);
    assert_eq!(value(frame.rx), 1.0);
    assert_eq!(value(frame.ry), -1.0);
    assert_eq!(value(frame.lt), 0.4);
    assert_eq!(value(frame.rt), 0.6);
    assert_eq!(to_xinput_thumb(value(frame.lx)), to_xinput_thumb(0.123_456_789));
    assert_eq!(to_xinput_trigger(value(frame.lt)), to_xinput_trigger(0.4));
}

#[test]
fn default_output_state_lowers_to_default_frame() {
    assert_eq!(
        OutputState::default().to_output_frame(),
        OutputFrame::default()
    );
}

#[test]
fn full_pulls_click() {
    let mut s = blank();
    s.l2_raw = 255;
    s.r2_raw = 254;
    let out = OutputState::passthrough(&s);
    assert!(out.buttons.has(PadButtons::L2_CLICK));
    assert!(!out.buttons.has(PadButtons::R2_CLICK));
    assert_eq!(out.to_output_frame().buttons, 0);
}

fn to_xinput_thumb(n: f64) -> i16 {
    let n = n.clamp(-1.0, 1.0);
    let v = if n >= 0.0 { n * 32767.0 } else { n * 32768.0 };
    v.round().clamp(-32768.0, 32767.0) as i16
}

fn to_xinput_trigger(t: f64) -> u8 {
    (t.clamp(0.0, 1.0) * 255.0).round() as u8
}

#[test]
fn default_frame_is_neutral() {
    let f = OutputFrame::default();
    assert_eq!(to_xinput_thumb(value(f.lx)), 0);
    assert_eq!(to_xinput_thumb(value(f.ly)), 0);
    assert_eq!(to_xinput_trigger(value(f.lt)), 0);
    assert_eq!(f.buttons, 0);
}
