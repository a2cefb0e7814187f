//! Profiles, bindings and the mapping engine.

pub mod binding;
pub mod engine;
pub mod latching;
pub mod moves;
pub mod profile;
pub mod reports;

pub use binding::{
    AxisDir, BindTarget, Binding, BindingSlot, GamepadAxis, KeyKind, MouseMoveSrc, OutputBinding,
    PadBtn, ShiftTrigger, TurboCfg, WheelDir,
};
pub use engine::{
    apply, finish_batch, turbo_gate, KbmPlan, KbmStep, MapState, MoveInput, TurboState, VkLatch,
};
pub use moves::{finish_report, touch_delta, LeastMotions};
pub use profile::{
    Bindings, GyroMode, GyroSettings, MacroDef, MacroMouseButton, MacroStep, MouseSettings, Profile,
    ResolvedProfile, SpecialAction, TouchpadSettings,
};
