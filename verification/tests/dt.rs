use hyperion_core::dt::Dt;
use hyperion_core::scalar::Scalar;

fn scalar(v: f64) -> Scalar {
    Scalar::from_bits(v.to_bits())
}

fn value(s: Scalar) -> f64 {
    f64::from_bits(s.to_bits())
}

#[test]
fn guards_clamp_the_window() {
    assert_eq!(value(Dt::guarded(scalar(0.0)).us()), 100.0);
    assert_eq!(value(Dt::guarded(scalar(-5.0)).us()), 100.0);
    assert_eq!(value(Dt::guarded(scalar(1_000_000.0)).us()), 20_000.0);
    assert_eq!(value(Dt::guarded(scalar(4000.0)).us()), 4000.0);
    assert_eq!(value(Dt::guarded(scalar(f64::NAN)).us()), 100.0);
}
