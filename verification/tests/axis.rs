use hyperion_core::axis::{clamp_axis, AxisRatio, RawStickFormat};
use hyperion_core::scalar::Scalar;

fn ratio(r: AxisRatio) -> f64 {
    r.num as f64 / r.den as f64
}

#[test]
fn ds4_endpoints_and_neutral_are_exact() {
    let f = RawStickFormat::ds_8bit();
    assert_eq!(ratio(f.to_axis(128)), 0.0);
    assert_eq!(ratio(f.to_axis(0)), -1.0);
    assert_eq!(ratio(f.to_axis(255)), 1.0);
    assert_eq!(f.from_axis(AxisRatio { num: 0, den: 1 }), 128);
    assert_eq!(f.from_axis(AxisRatio { num: -1, den: 1 }), 0);
    assert_eq!(f.from_axis(AxisRatio { num: 1, den: 1 }), 255);
}

#[test]
fn xinput16_endpoints() {
    let f = RawStickFormat::xinput_16();
    assert_eq!(ratio(f.to_axis(0)), 0.0);
    assert_eq!(ratio(f.to_axis(-32768)), -1.0);
    assert_eq!(ratio(f.to_axis(32767)), 1.0);
}

#[test]
fn readings_come_back() {
    let f = RawStickFormat::ds_8bit();
    for raw in 0..=255 {
        assert_eq!(f.from_axis(f.to_axis(raw)), raw);
    }
    let w = RawStickFormat::xinput_16();
    for raw in [-32768, -32767, -1, 0, 1, 12345, 32767] {
        assert_eq!(w.from_axis(w.to_axis(raw)), raw);
    }
}

#[test]
fn values_between_readings_round_away_from_zero() {
    let f = RawStickFormat::ds_8bit();
    assert_eq!(f.from_axis(AxisRatio { num: 1, den: 2 }), 192);
    assert_eq!(f.from_axis(AxisRatio { num: -1, den: 2 }), 64);
    assert_eq!(f.from_axis(AxisRatio { num: 1, den: 254 }), 129);
    assert_eq!(f.from_axis(AxisRatio { num: 0, den: 0 }), 128);
}

#[test]
fn widths_give_their_ranges() {
    let twelve = RawStickFormat::xinput(12);
    assert_eq!((twelve.min, twelve.neutral, twelve.max), (-2048, 0, 2047));
    let one = RawStickFormat::xinput(1);
    assert_eq!((one.min, one.max), (-1, 0));
    assert_eq!(RawStickFormat::xinput(31).max, 0x3FFF_FFFF);
    assert_eq!(RawStickFormat::xinput(40).max, -1);
}

#[test]
fn axis_values_are_held_in_range() {
    let clamp = |v: f64| f64::from_bits(clamp_axis(Scalar::from_bits(v.to_bits())).to_bits());
    assert_eq!(clamp(0.25), 0.25);
    assert_eq!(clamp(3.0), 1.0);
    assert_eq!(clamp(-1.5), -1.0);
    assert!(clamp(f64::NAN).is_nan());
}

#[test]
fn neutral_is_zero_on_every_format() {
    for (neutral, min, max) in [(255, 0, 255), (0, 0, 255), (7, 7, 7), (300, 0, 255), (-5, 0, 255)] {
        let f = RawStickFormat { bits: 8, neutral, min, max };
        let r = f.to_axis(neutral);
        assert_eq!(r.num, 0);
        assert!(r.den > 0);
    }
    let f = RawStickFormat { bits: 8, neutral: 255, min: 0, max: 255 };
    assert_eq!(ratio(f.to_axis(256)), 1.0);
    assert_eq!(ratio(f.to_axis(0)), -1.0);
    assert_eq!(f.from_axis(f.to_axis(255)), 255);
}

#[test]
fn values_beyond_the_ends_read_as_the_ends() {
    let f = RawStickFormat::ds_8bit();
    assert_eq!(f.from_axis(AxisRatio { num: 9, den: 2 }), 255);
    assert_eq!(f.from_axis(AxisRatio { num: -9, den: 2 }), 0);
    assert_eq!(f.from_axis(AxisRatio { num: 1, den: -2 }), 64);
    assert_eq!(f.from_axis(AxisRatio { num: i64::MAX, den: i64::MAX }), 255);
    assert_eq!(f.from_axis(AxisRatio { num: i64::MIN, den: i64::MIN }), 255);
}

#[test]
fn a_neutral_outside_the_range_is_held_in_it() {
    let f = RawStickFormat { bits: 8, neutral: 300, min: 0, max: 255 };
    assert_eq!(f.from_axis(AxisRatio { num: 0, den: 1 }), 255);
    assert_eq!(f.from_axis(AxisRatio { num: 1, den: 1 }), 255);
    assert_eq!(f.from_axis(AxisRatio { num: -1, den: 1 }), 0);
    assert_eq!(f.from_axis(AxisRatio { num: 0, den: 0 }), 255);
}
