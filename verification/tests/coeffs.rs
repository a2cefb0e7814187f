use hyperion_core::rc::{PeriodCoeffs, MAX_PERIOD_US, MIN_PERIOD_US};

#[test]
fn period_4000_matches_design_headline() {
    let c = PeriodCoeffs::new(4000);
    assert_eq!(c.period_us, 4000);
    assert_eq!(c.sample_ms, 4);
    assert_eq!(c.base_value, 25);
    assert_eq!(c.lead_base, 50);
}

#[test]
fn period_is_clamped_into_range() {
    assert_eq!(PeriodCoeffs::new(0).period_us, MIN_PERIOD_US);
    assert_eq!(PeriodCoeffs::new(999).period_us, MIN_PERIOD_US);
    assert_eq!(PeriodCoeffs::new(100_000).period_us, MAX_PERIOD_US);
}

#[test]
fn sample_ms_never_zero_and_truncates() {
    let c = PeriodCoeffs::new(1000);
    assert_eq!(c.sample_ms, 1);
    assert_eq!(c.base_value, 100);
    let c = PeriodCoeffs::new(1999);
    assert_eq!(c.sample_ms, 1);
    assert_eq!(c.base_value, 100);
}

#[test]
fn base_value_jumps_at_sample_ms_boundary() {
    assert_eq!(PeriodCoeffs::new(2999).base_value, 50);
    assert_eq!(PeriodCoeffs::new(3001).base_value, 33);
}

#[test]
fn lead_base_truncates() {
    assert_eq!(PeriodCoeffs::new(8000).lead_base, 25);
    assert_eq!(PeriodCoeffs::new(3000).lead_base, 66);
}
