use hyperion_core::input::SensorClock;
use hyperion_core::input::dt_clock::THIRDS_NS_PER_US;

fn fold(c: &mut SensorClock, ts: u16, ns: u64) -> f64 {
    c.fold(ts, ns) as f64 / THIRDS_NS_PER_US as f64
}

#[test]
fn first_call_primes_to_zero() {
    let mut c = SensorClock::default();
    assert_eq!(fold(&mut c, 1234, 5_000), 0.0);
}

#[test]
fn simple_tick_delta() {
    let mut c = SensorClock::default();
    fold(&mut c, 1000, 0);
    assert!((fold(&mut c, 1003, 1_000_000) - 16.0).abs() < 1e-12);
}

#[test]
fn u16_wrap_65535_to_0() {
    let mut c = SensorClock::default();
    fold(&mut c, 65535, 0);
    let dt = fold(&mut c, 0, 1_000_000);
    assert!((dt - 16.0 / 3.0).abs() < 1e-12, "dt={dt}");
}

#[test]
fn u16_wrap_larger_span() {
    let mut c = SensorClock::default();
    fold(&mut c, 65530, 0);
    let dt = fold(&mut c, 10, 1_000_000);
    assert!((dt - 16.0 * 16.0 / 3.0).abs() < 1e-12, "dt={dt}");
}

#[test]
fn identical_stamp_falls_back_to_qpc() {
    let mut c = SensorClock::default();
    fold(&mut c, 5000, 1_000_000);
    let dt = fold(&mut c, 5000, 3_500_000);
    assert!((dt - 2500.0).abs() < 1e-9, "dt={dt}");
}

#[test]
fn qpc_advances_even_on_device_ts_path() {
    let mut c = SensorClock::default();
    fold(&mut c, 100, 1_000_000);
    fold(&mut c, 103, 9_000_000);
    let dt = fold(&mut c, 103, 9_500_000);
    assert!((dt - 500.0).abs() < 1e-9, "dt={dt}");
}

#[test]
fn clamps_to_20ms_ceiling() {
    let mut c = SensorClock::default();
    fold(&mut c, 0, 0);
    let dt = fold(&mut c, 40000, 1_000_000);
    assert_eq!(dt, 20_000.0);
}

#[test]
fn dt_clock_reset_reprimes() {
    let mut c = SensorClock::default();
    fold(&mut c, 100, 0);
    c.reset();
    assert_eq!(fold(&mut c, 200, 1_000), 0.0);
}

#[test]
fn a_clock_that_runs_back_measures_nothing() {
    let mut c = SensorClock::default();
    fold(&mut c, 7, 9_000);
    assert_eq!(fold(&mut c, 7, 1_000), 0.0);
}
