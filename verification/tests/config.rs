use hyperion_core::config::{
    DeviceConfig, DtSource, EngineConfig, HidHideConfig, StickConfig, StickMode, ThreadConfig,
    WaitMode,
};
use hyperion_core::rc::{RcConfig, MAX_PARAM, MIN_PERIOD_US};

fn wild() -> StickConfig {
    StickConfig {
        mode: StickMode::Rc,
        rc: RcConfig { period_us: 1, fixed_param: 9999, ..RcConfig::default() },
    }
}

#[test]
fn defaults_are_the_documented_ones() {
    let c = EngineConfig::default();
    assert_eq!(c.active_device, "");
    assert_eq!(c.thread.timer_resolution_us, 500);
    assert!(c.thread.use_mmcss);
    assert_eq!(c.thread.mmcss_task, "Pro Audio");
    assert_eq!(c.thread.wait_mode, WaitMode::HybridSpin);
    assert_eq!(c.thread.spin_budget_us, 80);
    assert_eq!(c.thread.dt_source, DtSource::QpcOnly);
    assert!(c.hidhide.enabled && !c.hidhide.use_cli);
    assert!(c.hidhide.cli_path.ends_with("HidHideCLI.exe"));
    assert_eq!(c.devices.len(), 0);
    let d = DeviceConfig::default();
    assert_eq!((d.vid, d.pid, d.report_rate_hz, d.stick_bits), (0x054C, 0x0DF2, 4000, 8));
    assert_eq!(d.ls.mode, StickMode::Bypass);
    assert_eq!(WaitMode::default(), WaitMode::HybridSpin);
    assert_eq!(DtSource::default(), DtSource::QpcOnly);
}

#[test]
fn a_stick_is_clamped_in_its_filter_only() {
    let c = wild().clamped();
    assert_eq!(c.mode, StickMode::Rc);
    assert_eq!(c.rc.period_us, MIN_PERIOD_US);
    assert_eq!(c.rc.fixed_param, MAX_PARAM);
    let d = DeviceConfig { vid: 7, ls: wild(), ..DeviceConfig::default() }.clamped();
    assert_eq!(d.vid, 7);
    assert_eq!(d.ls, c);
    assert_eq!(d.rs, StickConfig::default());
}

#[test]
fn every_device_is_clamped_and_kept() {
    let mut c = EngineConfig::default();
    c.active_device = "b".to_string();
    c.devices.insert("b".to_string(), DeviceConfig { ls: wild(), ..DeviceConfig::default() });
    c.devices.insert("a".to_string(), DeviceConfig { rs: wild(), ..DeviceConfig::default() });
    let k = c.clamped();
    assert_eq!(k.active_device, "b");
    assert_eq!(k.devices.names(), vec!["a", "b"]);
    assert_eq!(k.devices.get("b"), Some(&c.devices.get("b").unwrap().clamped()));
    assert_eq!(k.devices.get("a"), Some(&c.devices.get("a").unwrap().clamped()));
    assert_eq!(k.thread, c.thread);
    assert_eq!(k.hidhide, c.hidhide);
}

#[test]
fn policies_are_copied_whole() {
    let t = ThreadConfig { hot_core: Some(2), spin_budget_us: 7, ..ThreadConfig::default() };
    assert_eq!(t.clone(), t);
    let h = HidHideConfig { use_cli: true, cli_path: "x".to_string(), ..HidHideConfig::default() };
    assert_eq!(h.clone(), h);
}
