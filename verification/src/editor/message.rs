//! What the editor tells the engine.

use vstd::prelude::*;

use crate::config::{AutoSwitchRule, HidHideConfig, ThreadConfig};
use crate::input::control::Control;
use crate::map::binding::{BindTarget, ShiftTrigger, TurboCfg};
use crate::map::profile::{GyroSettings, MacroDef, MouseSettings, TouchpadSettings};
use crate::output::state::PadTarget;
use crate::stick::settings::StickSettings;
use crate::trigger::TriggerSettings;

verus! {

/// One of the two sticks.
#[derive(Clone, Copy, Debug, PartialEq, Eq, Structural)]
pub enum Stick {
    Left,
    Right,
}

/// One of the two triggers.
#[derive(Clone, Copy, Debug, PartialEq, Eq, Structural)]
pub enum Trigger {
    Left,
    Right,
}

/// A change that the engine is asked to make.
#[derive(Debug, PartialEq, Eq)]
#[allow(inconsistent_fields)]
pub enum ControlMsg {
    SetStickSettings { profile: String, stick: Stick, settings: StickSettings },
    SetTriggerSettings { profile: String, trigger: Trigger, settings: TriggerSettings },
    SetBinding { profile: String, control: Control, bind: BindTarget },
    SetShiftTrigger {
        profile: String,
        control: Control,
        trigger: Option<ShiftTrigger>,
        bind: BindTarget,
    },
    SetBindingTurbo { profile: String, control: Control, turbo: Option<TurboCfg> },
    SetMouseSettings { profile: String, settings: MouseSettings },
    SetGyroSettings { profile: String, settings: GyroSettings },
    SetTouchpadSettings { profile: String, settings: TouchpadSettings },
    UpsertMacro { profile: String, def: MacroDef },
    DeleteMacro { profile: String, id: u16 },
    SetThread(ThreadConfig),
    SetHidHide(HidHideConfig),
    CreateProfile { name: String },
    RenameProfile { from: String, to: String },
    DuplicateProfile { src: String, dst: String },
    DeleteProfile { name: String },
    /// Takes a profile's text in under a name.
    ImportProfile { name: String, toml: String },
    SetOutputKind { profile: String, kind: PadTarget },
    SetAssignment { device: String, profile: String },
    SetAutoSwitchEnabled(bool),
    UpsertAutoSwitchRule { rule: AutoSwitchRule },
    DeleteAutoSwitchRule { device: String, exe_substr: String, title_substr: String },
    SaveToDisk,
    ReloadFromDisk,
}

} // verus!
