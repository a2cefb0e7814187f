use hyperion_core::rc::{RcConfig, RcCurve, RcMode, MAX_PARAM, MIN_PERIOD_US};

#[test]
fn default_mode_is_ultimate_dt() {
    assert_eq!(RcMode::default(), RcMode::UltimateDt);
    assert_eq!(RcConfig::default().mode, RcMode::UltimateDt);
    assert!(!RcConfig::default().enabled);
    assert_eq!(RcConfig::default().period_us, 4000);
    assert_eq!(RcConfig::default().fixed_param, 100);
}

#[test]
fn clamped_enforces_ranges_and_x2() {
    let cfg = RcConfig {
        period_us: 999,
        fixed_param: 9999,
        curve: RcCurve {
            x1: 64,
            x2: 10,
            ..RcCurve::default()
        },
        ..RcConfig::default()
    };
    let c = cfg.clamped();
    assert_eq!(c.period_us, MIN_PERIOD_US);
    assert_eq!(c.fixed_param, MAX_PARAM);
    assert_eq!(c.curve.x2, 64);
}
