use hyperion_core::input::Thresholds;
use hyperion_core::scalar::Scalar;

fn value(s: Scalar) -> f64 {
    f64::from_bits(s.to_bits())
}

#[test]
fn threshold_defaults_match_ds4windows_constants() {
    let t = Thresholds::default();
    assert!((value(t.stick_dir) - 55.0 / 127.0).abs() < 1e-15);
    assert!((value(t.trigger) - 100.0 / 255.0).abs() < 1e-15);
    assert!((value(t.stick_dir) - 0.433_070_866).abs() < 1e-6);
    assert!((value(t.trigger) - 0.392_156_862).abs() < 1e-6);
    assert!((value(t.stick_dir) - value(t.trigger)).abs() > 0.04);
}
