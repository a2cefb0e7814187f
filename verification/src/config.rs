//! The configuration of the engine, its devices and its automatic profile switch.

use vstd::prelude::*;

use crate::names::NameMap;
use crate::rc::{rc_clamp_settles, RcConfig};

verus! {

/// How the report loop waits for the next report.
#[derive(Clone, Copy, Debug, PartialEq, Eq, Structural)]
pub enum WaitMode {
    /// Sleep until the report is there.
    Blocking,
    /// Poll for a while, then sleep.
    HybridSpin,
}

impl Default for WaitMode {
    fn default() -> (r: WaitMode)
        ensures
            r == WaitMode::HybridSpin,
    {
        WaitMode::HybridSpin
    }
}

/// Where the time between two reports is taken from.
#[derive(Clone, Copy, Debug, PartialEq, Eq, Structural)]
pub enum DtSource {
    /// The report's own time stamp.
    DeviceTimestamp,
    /// The host's clock.
    QpcOnly,
}

impl Default for DtSource {
    fn default() -> (r: DtSource)
        ensures
            r == DtSource::QpcOnly,
    {
        DtSource::QpcOnly
    }
}

/// Threads and timing.
#[derive(Debug, PartialEq, Eq)]
pub struct ThreadConfig {
    /// Core of the report loop; none stands for "any suitable one".
    pub hot_core: Option<usize>,
    /// Core of the user interface; none stands for "any other one".
    pub gui_core: Option<usize>,
    /// System timer resolution in microseconds.
    pub timer_resolution_us: u32,
    /// Whether the report loop asks for multimedia scheduling.
    pub use_mmcss: bool,
    /// Name of the multimedia task.
    pub mmcss_task: String,
    pub wait_mode: WaitMode,
    /// Polling time of [`WaitMode::HybridSpin`] in microseconds.
    pub spin_budget_us: u32,
    /// Whether a report equal to the last one is left out.
    pub skip_duplicate_reports: bool,
    pub dt_source: DtSource,
}

impl ThreadConfig {
    /// Whether this is the policy in force where nothing else is configured.
    pub open spec fn is_default(self) -> bool {
        &&& self.hot_core is None
        &&& self.gui_core is None
        &&& self.timer_resolution_us == 500
        &&& self.use_mmcss
        &&& self.mmcss_task@ == "Pro Audio"@
        &&& self.wait_mode == WaitMode::HybridSpin
        &&& self.spin_budget_us == 80
        &&& !self.skip_duplicate_reports
        &&& self.dt_source == DtSource::QpcOnly
    }
}

impl Default for ThreadConfig {
    fn default() -> (r: ThreadConfig)
        ensures
            r.is_default(),
    {
        ThreadConfig {
            hot_core: None,
            gui_core: None,
            timer_resolution_us: 500,
            use_mmcss: true,
            mmcss_task: "Pro Audio".to_owned(),
            wait_mode: WaitMode::HybridSpin,
            spin_budget_us: 80,
            skip_duplicate_reports: false,
            dt_source: DtSource::QpcOnly,
        }
    }
}

impl Clone for ThreadConfig {
    fn clone(&self) -> (r: ThreadConfig)
        ensures
            r == *self,
    {
        ThreadConfig {
            hot_core: self.hot_core,
            gui_core: self.gui_core,
            timer_resolution_us: self.timer_resolution_us,
            use_mmcss: self.use_mmcss,
            mmcss_task: self.mmcss_task.clone(),
            wait_mode: self.wait_mode,
            spin_budget_us: self.spin_budget_us,
            skip_duplicate_reports: self.skip_duplicate_reports,
            dt_source: self.dt_source,
        }
    }
}

/// Hiding of the physical pad.
#[derive(Debug, PartialEq, Eq)]
pub struct HidHideConfig {
    pub enabled: bool,
    /// Whether the command line tool is used.
    pub use_cli: bool,
    /// Where the command line tool is.
    pub cli_path: String,
}

impl HidHideConfig {
    /// Whether this is the policy in force where nothing else is configured.
    pub open spec fn is_default(self) -> bool {
        &&& self.enabled
        &&& !self.use_cli
        &&& self.cli_path@
            == "C:\\Program Files\\Nefarius Software Solutions\\HidHide\\x64\\HidHideCLI.exe"@
    }
}

impl Default for HidHideConfig {
    fn default() -> (r: HidHideConfig)
        ensures
            r.is_default(),
    {
        HidHideConfig {
            enabled: true,
            use_cli: false,
            cli_path:
                "C:\\Program Files\\Nefarius Software Solutions\\HidHide\\x64\\HidHideCLI.exe"
                .to_owned(),
        }
    }
}

impl Clone for HidHideConfig {
    fn clone(&self) -> (r: HidHideConfig)
        ensures
            r == *self,
    {
        HidHideConfig {
            enabled: self.enabled,
            use_cli: self.use_cli,
            cli_path: self.cli_path.clone(),
        }
    }
}

/// What is done to a stick.
#[derive(Clone, Copy, Debug, PartialEq, Eq, Structural)]
pub enum StickMode {
    /// The stick goes through the filter.
    Rc,
    /// The stick passes untouched.
    Bypass,
}

impl Default for StickMode {
    fn default() -> (r: StickMode)
        ensures
            r == StickMode::Bypass,
    {
        StickMode::Bypass
    }
}

/// One stick of a device.
#[derive(Clone, Copy, Debug, PartialEq, Eq, Structural)]
pub struct StickConfig {
    pub mode: StickMode,
    pub rc: RcConfig,
}

impl StickConfig {
    /// The stick with its filter's values in their ranges.
    pub open spec fn clamped_spec(self) -> StickConfig {
        StickConfig { mode: self.mode, rc: self.rc.clamped_spec() }
    }

    /// A stick that nobody has configured.
    pub open spec fn default_spec() -> StickConfig {
        StickConfig { mode: StickMode::Bypass, rc: RcConfig::default_spec() }
    }

    /// A copy with the filter's values in their ranges.
    pub fn clamped(&self) -> (r: StickConfig)
        ensures
            r == self.clamped_spec(),
    {
        StickConfig { mode: self.mode, rc: self.rc.clamped() }
    }
}

impl Default for StickConfig {
    fn default() -> (r: StickConfig)
        ensures
            r == StickConfig::default_spec(),
    {
        StickConfig { mode: StickMode::Bypass, rc: RcConfig::default() }
    }
}

/// One device.
#[derive(Clone, Copy, Debug, PartialEq, Eq, Structural)]
pub struct DeviceConfig {
    /// USB vendor.
    pub vid: u16,
    /// USB product.
    pub pid: u16,
    /// Reports per second that are aimed at.
    pub report_rate_hz: u32,
    /// Bits of a stick reading.
    pub stick_bits: u8,
    pub ls: StickConfig,
    pub rs: StickConfig,
}

impl DeviceConfig {
    /// The device with its sticks' filter values in their ranges.
    pub open spec fn clamped_spec(self) -> DeviceConfig {
        DeviceConfig { ls: self.ls.clamped_spec(), rs: self.rs.clamped_spec(), ..self }
    }

    /// A device that nobody has configured.
    pub open spec fn default_spec() -> DeviceConfig {
        DeviceConfig {
            vid: 0x054C,
            pid: 0x0DF2,
            report_rate_hz: 4000,
            stick_bits: 8,
            ls: StickConfig::default_spec(),
            rs: StickConfig::default_spec(),
        }
    }

    /// A copy with both sticks' filter values in their ranges.
    pub fn clamped(&self) -> (r: DeviceConfig)
        ensures
            r == self.clamped_spec(),
    {
        DeviceConfig {
            vid: self.vid,
            pid: self.pid,
            report_rate_hz: self.report_rate_hz,
            stick_bits: self.stick_bits,
            ls: self.ls.clamped(),
            rs: self.rs.clamped(),
        }
    }
}

impl Default for DeviceConfig {
    fn default() -> (r: DeviceConfig)
        ensures
            r == DeviceConfig::default_spec(),
    {
        DeviceConfig {
            vid: 0x054C,
            pid: 0x0DF2,
            report_rate_hz: 4000,
            stick_bits: 8,
            ls: StickConfig::default(),
            rs: StickConfig::default(),
        }
    }
}

/// Clamping a device twice is clamping it once, and a device that nobody has configured is in its
/// ranges.
pub proof fn device_clamp_settles(d: DeviceConfig)
    ensures
        d.clamped_spec().clamped_spec() == d.clamped_spec(),
        DeviceConfig::default_spec().clamped_spec() == DeviceConfig::default_spec(),
{
    rc_clamp_settles(d.ls.rc);
    rc_clamp_settles(d.rs.rc);
}

/// The whole configuration.
#[derive(Debug)]
pub struct EngineConfig {
    /// Name of the device that is driven.
    pub active_device: String,
    pub thread: ThreadConfig,
    pub hidhide: HidHideConfig,
    /// The devices by name.
    pub devices: NameMap<DeviceConfig>,
}

/// The devices with all filter values in their ranges.
pub open spec fn clamped_devices(devices: Map<Seq<char>, DeviceConfig>) -> Map<
    Seq<char>,
    DeviceConfig,
> {
    devices.map_values(|d: DeviceConfig| d.clamped_spec())
}

impl EngineConfig {
    /// A copy with every device's filter values in their ranges.
    pub fn clamped(&self) -> (r: EngineConfig)
        ensures
            r.active_device@ == self.active_device@,
            r.thread == self.thread,
            r.hidhide == self.hidhide,
            r.devices@ == clamped_devices(self.devices@),
    {
        let mut devices: NameMap<DeviceConfig> = NameMap::new();
        let names: Vec<String> = self.devices.names();
        let mut i: usize = 0;
        while i < names.len()
            invariant
                i <= names@.len(),
                names@.len() == self.devices.listing().len(),
                forall|k: int| 0 <= k < names@.len() ==> #[trigger] names@[k]@
                    == self.devices.listing()[k],
                forall|n: Seq<char>| #[trigger]
                    devices@.contains_key(n) <==> exists|k: int|
                        0 <= k < i && #[trigger] names@[k]@ == n,
                forall|n: Seq<char>| #[trigger]
                    devices@.contains_key(n) ==> self.devices@.contains_key(n) && devices@[n]
                        == self.devices@[n].clamped_spec(),
            decreases names@.len() - i,
        {
            let device: DeviceConfig = self.devices.value_at(i).clamped();
            let ghost before: Map<Seq<char>, DeviceConfig> = devices@;
            devices.insert(names[i].clone(), device);
            proof {
                assert forall|n: Seq<char>| #[trigger]
                    devices@.contains_key(n) <==> exists|k: int|
                        0 <= k < i + 1 && #[trigger] names@[k]@ == n by {
                    if devices@.contains_key(n) {
                        if n == names@[i as int]@ {
                        } else {
                            assert(before.contains_key(n));
                        }
                    }
                    if exists|k: int| 0 <= k < i + 1 && #[trigger] names@[k]@ == n {
                        let k = choose|k: int| 0 <= k < i + 1 && #[trigger] names@[k]@ == n;
                        if k < i {
                            assert(before.contains_key(n));
                        }
                    }
                }
            }
            i = i + 1;
        }
        assert(devices@ =~= clamped_devices(self.devices@));
        EngineConfig {
            active_device: self.active_device.clone(),
            thread: self.thread.clone(),
            hidhide: self.hidhide.clone(),
            devices,
        }
    }
}

impl Default for EngineConfig {
    fn default() -> (r: EngineConfig)
        ensures
            r.active_device@.len() == 0,
            r.thread.is_default(),
            r.hidhide.is_default(),
            r.devices@ == Map::<Seq<char>, DeviceConfig>::empty(),
    {
        EngineConfig {
            active_device: String::new(),
            thread: ThreadConfig::default(),
            hidhide: HidHideConfig::default(),
            devices: NameMap::new(),
        }
    }
}

/// Clamping a configuration's devices twice is clamping them once.
pub proof fn config_clamp_settles(devices: Map<Seq<char>, DeviceConfig>)
    ensures
        clamped_devices(clamped_devices(devices)) == clamped_devices(devices),
{
    assert forall|n: Seq<char>| #[trigger] clamped_devices(devices).contains_key(n) implies
        clamped_devices(clamped_devices(devices))[n] == clamped_devices(devices)[n] by {
        device_clamp_settles(devices[n]);
    }
    assert(clamped_devices(clamped_devices(devices)) =~= clamped_devices(devices));
}

/// A rule that picks a profile by the foreground window.
#[derive(Debug, PartialEq, Eq)]
pub struct AutoSwitchRule {
    /// The device it is for; empty stands for every device.
    pub device: String,
    /// What the program's path must hold; empty stands for anything.
    pub exe_substr: String,
    /// What the window's title must hold; empty stands for anything.
    pub title_substr: String,
    /// The profile that it picks.
    pub profile: String,
}

impl Default for AutoSwitchRule {
    fn default() -> (r: AutoSwitchRule)
        ensures
            r.device@.len() == 0,
            r.exe_substr@.len() == 0,
            r.title_substr@.len() == 0,
            r.profile@.len() == 0,
    {
        AutoSwitchRule {
            device: String::new(),
            exe_substr: String::new(),
            title_substr: String::new(),
            profile: String::new(),
        }
    }
}

impl Clone for AutoSwitchRule {
    fn clone(&self) -> (r: AutoSwitchRule)
        ensures
            r == *self,
    {
        AutoSwitchRule {
            device: self.device.clone(),
            exe_substr: self.exe_substr.clone(),
            title_substr: self.title_substr.clone(),
            profile: self.profile.clone(),
        }
    }
}

/// The automatic profile switch.
#[derive(Debug, PartialEq, Eq)]
pub struct AutoSwitchConfig {
    pub enabled: bool,
    /// The rules; the first that fits decides.
    pub rules: Vec<AutoSwitchRule>,
}

impl Default for AutoSwitchConfig {
    fn default() -> (r: AutoSwitchConfig)
        ensures
            !r.enabled,
            r.rules@.len() == 0,
    {
        AutoSwitchConfig { enabled: false, rules: Vec::new() }
    }
}

/// A copy of a list of rules.
pub fn clone_rules(rules: &Vec<AutoSwitchRule>) -> (r: Vec<AutoSwitchRule>)
    ensures
        r@ == rules@,
{
    let mut r: Vec<AutoSwitchRule> = Vec::new();
    let mut i: usize = 0;
    while i < rules.len()
        invariant
            i <= rules@.len(),
            r@ == rules@.subrange(0, i as int),
        decreases rules@.len() - i,
    {
        r.push(rules[i].clone());
        i = i + 1;
        assert(rules@.subrange(0, i as int) =~= rules@.subrange(0, i - 1).push(rules@[i - 1]));
    }
    assert(rules@.subrange(0, i as int) =~= rules@);
    r
}

/// Clamping reaches each stick's own filter and leaves everything else of a device as it is.
pub proof fn clamping_reaches_the_filters_alone(d: DeviceConfig)
    ensures
        d.clamped_spec().vid == d.vid && d.clamped_spec().pid == d.pid,
        d.clamped_spec().report_rate_hz == d.report_rate_hz,
        d.clamped_spec().stick_bits == d.stick_bits,
        d.clamped_spec().ls.mode == d.ls.mode && d.clamped_spec().rs.mode == d.rs.mode,
        d.clamped_spec().ls.rc == d.ls.rc.clamped_spec(),
        d.clamped_spec().rs.rc == d.rs.rc.clamped_spec(),
{
}

/// Clamping a configuration keeps its devices' names, and clamps each device for itself.
pub proof fn devices_are_clamped_one_by_one(devices: Map<Seq<char>, DeviceConfig>, name: Seq<char>)
    ensures
        clamped_devices(devices).contains_key(name) <==> devices.contains_key(name),
        devices.contains_key(name) ==> clamped_devices(devices)[name]
            == devices[name].clamped_spec(),
{
}

/// Where nothing is configured, both sticks pass untouched and the pad is Sony's `0DF2`, read at
/// eight bits and aimed at 4000 reports per second. The timer runs at half a millisecond, the loop
/// polls for 80 microseconds, no report is left out and the host's clock counts. The pad is hidden,
/// without the command line tool.
pub proof fn nothing_configured_means_these(t: ThreadConfig, h: HidHideConfig)
    requires
        t.is_default(),
        h.is_default(),
    ensures
        DeviceConfig::default_spec().vid == 0x054C && DeviceConfig::default_spec().pid == 0x0DF2,
        DeviceConfig::default_spec().report_rate_hz == 4000,
        DeviceConfig::default_spec().stick_bits == 8,
        DeviceConfig::default_spec().ls.mode is Bypass,
        DeviceConfig::default_spec().rs.mode is Bypass,
        t.hot_core is None && t.gui_core is None,
        t.timer_resolution_us == 500 && t.spin_budget_us == 80,
        t.use_mmcss && !t.skip_duplicate_reports,
        t.wait_mode is HybridSpin && t.dt_source is QpcOnly,
        h.enabled && !h.use_cli,
{
}

} // verus!
