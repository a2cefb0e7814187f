use hyperion_core::axis::AxisRatio;
use hyperion_core::input::normalize::{signed16_to_axis, u8_stick_to_axis, u8_trigger};

fn ratio(r: AxisRatio) -> f64 {
    r.num as f64 / r.den as f64
}

#[test]
fn stick_endpoints_and_center() {
    assert_eq!(ratio(u8_stick_to_axis(0x80)), 0.0);
    assert_eq!(ratio(u8_stick_to_axis(0x00)), -1.0);
    assert_eq!(ratio(u8_stick_to_axis(0xFF)), 1.0);
}

#[test]
fn signed16_endpoints_and_center() {
    assert_eq!(ratio(signed16_to_axis(0)), 0.0);
    assert_eq!(ratio(signed16_to_axis(i16::MIN)), -1.0);
    assert_eq!(ratio(signed16_to_axis(i16::MAX)), 1.0);
}

#[test]
fn trigger_endpoints() {
    assert_eq!(ratio(u8_trigger(0)), 0.0);
    assert_eq!(ratio(u8_trigger(255)), 1.0);
    assert!((ratio(u8_trigger(128)) - 128.0 / 255.0).abs() < 1e-15);
}
