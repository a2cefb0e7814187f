//! Editable profiles and their resolved form.

use vstd::prelude::*;

use crate::input::control::{Control, Thresholds, CONTROL_COUNT};
use crate::map::binding::{BindTarget, BindingSlot};
use crate::mouse_accum::{
    GyroAccumCfg, MouseAccumCfg, TouchAccumCfg, GYRO_MOUSE_DEADZONE_BITS, GYRO_MOUSE_OFFSET_BITS,
    MOUSE_SENSITIVITY_BITS, MOUSE_VELOCITY_OFFSET_BITS, TOUCH_MOUSE_OFFSET_BITS,
};
use crate::output::kbm::MouseButton;
use crate::output::state::PadTarget;
use crate::scalar::{
    at_least_settles, clamp_lands_in_range, is_held_between, Scalar, ONE_BITS,
};
use crate::stick::settings::{stick_default_is_clamped, StickSettings, HUNDRED_BITS};
use crate::trigger::{trigger_clamp_settles, TriggerSettings};

verus! {

/// Pattern of `0.01`.
pub const HUNDREDTH_BITS: u64 = 0x3F84_7AE1_47AE_147B;

/// Pattern of `0.1`.
pub const TENTH_BITS: u64 = 0x3FB9_9999_9999_999A;

/// Pattern of `0.99`.
pub const NEARLY_ONE_BITS: u64 = 0x3FEF_AE14_7AE1_47AE;

/// Pattern of `8.0`.
pub const EIGHT_BITS: u64 = 0x4020_0000_0000_0000;

/// Pattern of `10.0`.
pub const TEN_BITS: u64 = 0x4024_0000_0000_0000;

/// Pattern of `1000.0`.
pub const THOUSAND_BITS: u64 = 0x408F_4000_0000_0000;

/// A setting brought into its range: the default where it is no finite number, then clamped.
pub open spec fn settled(v: Scalar, fallback: u64, lo: u64, hi: u64) -> Scalar {
    v.finite_or_spec(Scalar { bits: fallback }).clamp_spec(Scalar { bits: lo }, Scalar { bits: hi })
}

/// A setting with a lower bound alone, brought into its range.
pub open spec fn floored(v: Scalar, fallback: u64, lo: u64) -> Scalar {
    v.finite_or_spec(Scalar { bits: fallback }).at_least_spec(Scalar { bits: lo })
}

/// Brings a setting into its range.
fn settle(v: Scalar, fallback: u64, lo: u64, hi: u64) -> (r: Scalar)
    requires
        (Scalar { bits: hi }).ge_spec(Scalar { bits: lo }),
    ensures
        r == settled(v, fallback, lo, hi),
{
    v.finite_or(Scalar { bits: fallback }).clamp(Scalar { bits: lo }, Scalar { bits: hi })
}

/// Brings a setting with a lower bound alone into its range.
fn floor_at(v: Scalar, fallback: u64, lo: u64) -> (r: Scalar)
    ensures
        r == floored(v, fallback, lo),
{
    v.finite_or(Scalar { bits: fallback }).at_least(Scalar { bits: lo })
}

/// A settled setting is finite and stays as it is when settled again.
proof fn settling_settles(v: Scalar, fallback: u64, lo: u64, hi: u64)
    requires
        (Scalar { bits: hi }).ge_spec(Scalar { bits: lo }),
        (Scalar { bits: lo }).finite(),
        (Scalar { bits: hi }).finite(),
        (Scalar { bits: fallback }).finite(),
    ensures
        settled(v, fallback, lo, hi).finite(),
        settled(v, fallback, lo, hi).ge_spec(Scalar { bits: lo }),
        (Scalar { bits: hi }).ge_spec(settled(v, fallback, lo, hi)),
        settled(settled(v, fallback, lo, hi), fallback, lo, hi) == settled(v, fallback, lo, hi),
{
    clamp_lands_in_range(
        v.finite_or_spec(Scalar { bits: fallback }),
        Scalar { bits: lo },
        Scalar { bits: hi },
    );
}

/// A floored setting is finite and stays as it is when floored again.
proof fn flooring_settles(v: Scalar, fallback: u64, lo: u64)
    requires
        (Scalar { bits: lo }).finite(),
        (Scalar { bits: fallback }).finite(),
    ensures
        floored(v, fallback, lo).finite(),
        floored(v, fallback, lo).ge_spec(Scalar { bits: lo }),
        floored(floored(v, fallback, lo), fallback, lo) == floored(v, fallback, lo),
{
    at_least_settles(v.finite_or_spec(Scalar { bits: fallback }), Scalar { bits: lo });
}

/// Mouse motion from a stick.
#[derive(Clone, Copy, Debug, PartialEq, Eq, Structural)]
pub struct MouseSettings {
    pub sensitivity: Scalar,
    /// Extra scale of vertical motion.
    pub vertical_scale: Scalar,
    /// Start offset, as a fraction of the speed.
    pub velocity_offset: Scalar,
    /// Stick travel that moves nothing.
    pub deadzone: Scalar,
    /// Least motion that is emitted; one stands for "all of it".
    pub min_threshold: Scalar,
    /// Whether `accel_power` applies.
    pub accelerate: bool,
    /// Exponent of the stick travel.
    pub accel_power: Scalar,
    pub invert_x: bool,
    pub invert_y: bool,
}

impl MouseSettings {
    /// The settings in force where nothing else is configured.
    pub open spec fn default_spec() -> MouseSettings {
        MouseSettings {
            sensitivity: Scalar { bits: MOUSE_SENSITIVITY_BITS },
            vertical_scale: Scalar { bits: ONE_BITS },
            velocity_offset: Scalar { bits: MOUSE_VELOCITY_OFFSET_BITS },
            deadzone: Scalar { bits: 0 },
            min_threshold: Scalar { bits: ONE_BITS },
            accelerate: false,
            accel_power: Scalar { bits: ONE_BITS },
            invert_x: false,
            invert_y: false,
        }
    }

    /// The settings with every field in its range.
    pub open spec fn clamped_spec(self) -> MouseSettings {
        MouseSettings {
            sensitivity: settled(
                self.sensitivity,
                MOUSE_SENSITIVITY_BITS,
                HUNDREDTH_BITS,
                HUNDRED_BITS,
            ),
            vertical_scale: settled(self.vertical_scale, ONE_BITS, TENTH_BITS, TEN_BITS),
            velocity_offset: settled(self.velocity_offset, MOUSE_VELOCITY_OFFSET_BITS, 0, ONE_BITS),
            deadzone: settled(self.deadzone, 0, 0, NEARLY_ONE_BITS),
            min_threshold: floored(self.min_threshold, ONE_BITS, ONE_BITS),
            accel_power: settled(self.accel_power, ONE_BITS, TENTH_BITS, EIGHT_BITS),
            ..self
        }
    }

    /// A copy with every field in its range.
    pub fn clamped(self) -> (r: MouseSettings)
        ensures
            r == self.clamped_spec(),
    {
        MouseSettings {
            sensitivity: settle(
                self.sensitivity,
                MOUSE_SENSITIVITY_BITS,
                HUNDREDTH_BITS,
                HUNDRED_BITS,
            ),
            vertical_scale: settle(self.vertical_scale, ONE_BITS, TENTH_BITS, TEN_BITS),
            velocity_offset: settle(self.velocity_offset, MOUSE_VELOCITY_OFFSET_BITS, 0, ONE_BITS),
            deadzone: settle(self.deadzone, 0, 0, NEARLY_ONE_BITS),
            min_threshold: floor_at(self.min_threshold, ONE_BITS, ONE_BITS),
            accelerate: self.accelerate,
            accel_power: settle(self.accel_power, ONE_BITS, TENTH_BITS, EIGHT_BITS),
            invert_x: self.invert_x,
            invert_y: self.invert_y,
        }
    }

    /// The tuning that these settings stand for.
    pub open spec fn accum_cfg(self) -> MouseAccumCfg {
        MouseAccumCfg {
            sensitivity: self.sensitivity,
            vertical_scale: self.vertical_scale,
            velocity_offset: self.velocity_offset,
            deadzone: self.deadzone,
            min_threshold: self.min_threshold,
            accelerate: self.accelerate,
            accel_power: self.accel_power,
            invert_x: self.invert_x,
            invert_y: self.invert_y,
        }
    }

    /// The tuning that these settings stand for.
    pub fn to_accum_cfg(self) -> (r: MouseAccumCfg)
        ensures
            r == self.accum_cfg(),
    {
        MouseAccumCfg {
            sensitivity: self.sensitivity,
            vertical_scale: self.vertical_scale,
            velocity_offset: self.velocity_offset,
            deadzone: self.deadzone,
            min_threshold: self.min_threshold,
            accelerate: self.accelerate,
            accel_power: self.accel_power,
            invert_x: self.invert_x,
            invert_y: self.invert_y,
        }
    }
}

impl Default for MouseSettings {
    fn default() -> (r: MouseSettings)
        ensures
            r == MouseSettings::default_spec(),
    {
        MouseSettings {
            sensitivity: Scalar { bits: MOUSE_SENSITIVITY_BITS },
            vertical_scale: Scalar { bits: ONE_BITS },
            velocity_offset: Scalar { bits: MOUSE_VELOCITY_OFFSET_BITS },
            deadzone: Scalar { bits: 0 },
            min_threshold: Scalar { bits: ONE_BITS },
            accelerate: false,
            accel_power: Scalar { bits: ONE_BITS },
            invert_x: false,
            invert_y: false,
        }
    }
}

/// When the gyro moves the mouse.
#[derive(Clone, Copy, Debug, PartialEq, Eq, Structural)]
pub enum GyroMode {
    /// Never.
    Off,
    /// On every report.
    AlwaysOn,
    /// While its trigger is held.
    TriggerHeld,
    /// A mode that is not known here; it works as [`GyroMode::Off`].
    Unknown,
}

impl GyroMode {
    /// Whether the gyro moves the mouse.
    pub open spec fn active(self, trigger_held: bool) -> bool {
        self == GyroMode::AlwaysOn || (self == GyroMode::TriggerHeld && trigger_held)
    }

    /// Whether the gyro moves the mouse.
    pub fn is_active(self, trigger_held: bool) -> (r: bool)
        ensures
            r == self.active(trigger_held),
    {
        match self {
            GyroMode::AlwaysOn => true,
            GyroMode::TriggerHeld => trigger_held,
            GyroMode::Off | GyroMode::Unknown => false,
        }
    }
}

impl Default for GyroMode {
    fn default() -> (r: GyroMode)
        ensures
            r == GyroMode::Off,
    {
        GyroMode::Off
    }
}

/// Mouse motion from the gyro.
#[derive(Clone, Copy, Debug, PartialEq, Eq, Structural)]
pub struct GyroSettings {
    pub mode: GyroMode,
    pub sensitivity: Scalar,
    /// Extra scale of vertical motion.
    pub vertical_scale: Scalar,
    /// Rotation rate that moves nothing.
    pub deadzone: Scalar,
    /// Start offset.
    pub velocity_offset: Scalar,
    /// Least motion that is emitted; one stands for "all of it".
    pub min_threshold: Scalar,
    /// Whether small motion is eased in.
    pub jitter_comp: bool,
    pub invert_x: bool,
    pub invert_y: bool,
    /// Whether roll moves the mouse sideways instead of yaw.
    pub swap_yaw_roll: bool,
}

impl GyroSettings {
    /// The settings in force where nothing else is configured.
    pub open spec fn default_spec() -> GyroSettings {
        GyroSettings {
            mode: GyroMode::Off,
            sensitivity: Scalar { bits: ONE_BITS },
            vertical_scale: Scalar { bits: ONE_BITS },
            deadzone: Scalar { bits: GYRO_MOUSE_DEADZONE_BITS },
            velocity_offset: Scalar { bits: GYRO_MOUSE_OFFSET_BITS },
            min_threshold: Scalar { bits: ONE_BITS },
            jitter_comp: true,
            invert_x: false,
            invert_y: false,
            swap_yaw_roll: false,
        }
    }

    /// The settings with every field in its range.
    pub open spec fn clamped_spec(self) -> GyroSettings {
        GyroSettings {
            sensitivity: settled(self.sensitivity, ONE_BITS, HUNDREDTH_BITS, HUNDRED_BITS),
            vertical_scale: settled(self.vertical_scale, ONE_BITS, TENTH_BITS, TEN_BITS),
            deadzone: settled(self.deadzone, GYRO_MOUSE_DEADZONE_BITS, 0, THOUSAND_BITS),
            velocity_offset: settled(self.velocity_offset, GYRO_MOUSE_OFFSET_BITS, 0, TEN_BITS),
            min_threshold: floored(self.min_threshold, ONE_BITS, ONE_BITS),
            ..self
        }
    }

    /// A copy with every field in its range.
    pub fn clamped(self) -> (r: GyroSettings)
        ensures
            r == self.clamped_spec(),
    {
        GyroSettings {
            mode: self.mode,
            sensitivity: settle(self.sensitivity, ONE_BITS, HUNDREDTH_BITS, HUNDRED_BITS),
            vertical_scale: settle(self.vertical_scale, ONE_BITS, TENTH_BITS, TEN_BITS),
            deadzone: settle(self.deadzone, GYRO_MOUSE_DEADZONE_BITS, 0, THOUSAND_BITS),
            velocity_offset: settle(self.velocity_offset, GYRO_MOUSE_OFFSET_BITS, 0, TEN_BITS),
            min_threshold: floor_at(self.min_threshold, ONE_BITS, ONE_BITS),
            jitter_comp: self.jitter_comp,
            invert_x: self.invert_x,
            invert_y: self.invert_y,
            swap_yaw_roll: self.swap_yaw_roll,
        }
    }

    /// The tuning that these settings stand for; mode and axis choice are not part of it.
    pub open spec fn accum_cfg(self) -> GyroAccumCfg {
        GyroAccumCfg {
            sensitivity: self.sensitivity,
            vertical_scale: self.vertical_scale,
            velocity_offset: self.velocity_offset,
            deadzone: self.deadzone,
            min_threshold: self.min_threshold,
            jitter_comp: self.jitter_comp,
            invert_x: self.invert_x,
            invert_y: self.invert_y,
        }
    }

    /// The tuning that these settings stand for.
    pub fn to_accum_cfg(self) -> (r: GyroAccumCfg)
        ensures
            r == self.accum_cfg(),
    {
        GyroAccumCfg {
            sensitivity: self.sensitivity,
            vertical_scale: self.vertical_scale,
            velocity_offset: self.velocity_offset,
            deadzone: self.deadzone,
            min_threshold: self.min_threshold,
            jitter_comp: self.jitter_comp,
            invert_x: self.invert_x,
            invert_y: self.invert_y,
        }
    }
}

impl Default for GyroSettings {
    fn default() -> (r: GyroSettings)
        ensures
            r == GyroSettings::default_spec(),
    {
        GyroSettings {
            mode: GyroMode::Off,
            sensitivity: Scalar { bits: ONE_BITS },
            vertical_scale: Scalar { bits: ONE_BITS },
            deadzone: Scalar { bits: GYRO_MOUSE_DEADZONE_BITS },
            velocity_offset: Scalar { bits: GYRO_MOUSE_OFFSET_BITS },
            min_threshold: Scalar { bits: ONE_BITS },
            jitter_comp: true,
            invert_x: false,
            invert_y: false,
            swap_yaw_roll: false,
        }
    }
}

/// Mouse motion and buttons from the touchpad.
#[derive(Clone, Copy, Debug, PartialEq, Eq, Structural)]
pub struct TouchpadSettings {
    /// Whether a finger moves the mouse.
    pub as_mouse: bool,
    /// Whether the finger regions are buttons.
    pub as_buttons: bool,
    pub sensitivity: Scalar,
    /// Start offset.
    pub velocity_offset: Scalar,
    /// Least motion that is emitted; one stands for "all of it".
    pub min_threshold: Scalar,
    /// Whether small motion is eased in.
    pub jitter_comp: bool,
    pub invert_x: bool,
    pub invert_y: bool,
}

impl TouchpadSettings {
    /// The settings in force where nothing else is configured.
    pub open spec fn default_spec() -> TouchpadSettings {
        TouchpadSettings {
            as_mouse: false,
            as_buttons: true,
            sensitivity: Scalar { bits: ONE_BITS },
            velocity_offset: Scalar { bits: TOUCH_MOUSE_OFFSET_BITS },
            min_threshold: Scalar { bits: ONE_BITS },
            jitter_comp: true,
            invert_x: false,
            invert_y: false,
        }
    }

    /// The settings with every field in its range.
    pub open spec fn clamped_spec(self) -> TouchpadSettings {
        TouchpadSettings {
            sensitivity: settled(self.sensitivity, ONE_BITS, HUNDREDTH_BITS, HUNDRED_BITS),
            velocity_offset: settled(self.velocity_offset, TOUCH_MOUSE_OFFSET_BITS, 0, TEN_BITS),
            min_threshold: floored(self.min_threshold, ONE_BITS, ONE_BITS),
            ..self
        }
    }

    /// A copy with every field in its range.
    pub fn clamped(self) -> (r: TouchpadSettings)
        ensures
            r == self.clamped_spec(),
    {
        TouchpadSettings {
            as_mouse: self.as_mouse,
            as_buttons: self.as_buttons,
            sensitivity: settle(self.sensitivity, ONE_BITS, HUNDREDTH_BITS, HUNDRED_BITS),
            velocity_offset: settle(self.velocity_offset, TOUCH_MOUSE_OFFSET_BITS, 0, TEN_BITS),
            min_threshold: floor_at(self.min_threshold, ONE_BITS, ONE_BITS),
            jitter_comp: self.jitter_comp,
            invert_x: self.invert_x,
            invert_y: self.invert_y,
        }
    }

    /// The tuning that these settings stand for; the two switches are not part of it.
    pub open spec fn accum_cfg(self) -> TouchAccumCfg {
        TouchAccumCfg {
            sensitivity: self.sensitivity,
            velocity_offset: self.velocity_offset,
            min_threshold: self.min_threshold,
            jitter_comp: self.jitter_comp,
            invert_x: self.invert_x,
            invert_y: self.invert_y,
        }
    }

    /// The tuning that these settings stand for.
    pub fn to_accum_cfg(self) -> (r: TouchAccumCfg)
        ensures
            r == self.accum_cfg(),
    {
        TouchAccumCfg {
            sensitivity: self.sensitivity,
            velocity_offset: self.velocity_offset,
            min_threshold: self.min_threshold,
            jitter_comp: self.jitter_comp,
            invert_x: self.invert_x,
            invert_y: self.invert_y,
        }
    }
}

impl Default for TouchpadSettings {
    fn default() -> (r: TouchpadSettings)
        ensures
            r == TouchpadSettings::default_spec(),
    {
        TouchpadSettings {
            as_mouse: false,
            as_buttons: true,
            sensitivity: Scalar { bits: ONE_BITS },
            velocity_offset: Scalar { bits: TOUCH_MOUSE_OFFSET_BITS },
            min_threshold: Scalar { bits: ONE_BITS },
            jitter_comp: true,
            invert_x: false,
            invert_y: false,
        }
    }
}

/// Clamping the motion settings twice is clamping them once.
pub proof fn motion_clamps_settle(m: MouseSettings, g: GyroSettings, t: TouchpadSettings)
    ensures
        m.clamped_spec().clamped_spec() == m.clamped_spec(),
        g.clamped_spec().clamped_spec() == g.clamped_spec(),
        t.clamped_spec().clamped_spec() == t.clamped_spec(),
{
    assert(m.clamped_spec().clamped_spec() == m.clamped_spec()) by {
        settling_settles(m.sensitivity, MOUSE_SENSITIVITY_BITS, HUNDREDTH_BITS, HUNDRED_BITS);
        settling_settles(m.vertical_scale, ONE_BITS, TENTH_BITS, TEN_BITS);
        settling_settles(m.velocity_offset, MOUSE_VELOCITY_OFFSET_BITS, 0, ONE_BITS);
        settling_settles(m.deadzone, 0, 0, NEARLY_ONE_BITS);
        flooring_settles(m.min_threshold, ONE_BITS, ONE_BITS);
        settling_settles(m.accel_power, ONE_BITS, TENTH_BITS, EIGHT_BITS);
    }
    assert(g.clamped_spec().clamped_spec() == g.clamped_spec()) by {
        settling_settles(g.sensitivity, ONE_BITS, HUNDREDTH_BITS, HUNDRED_BITS);
        settling_settles(g.vertical_scale, ONE_BITS, TENTH_BITS, TEN_BITS);
        settling_settles(g.deadzone, GYRO_MOUSE_DEADZONE_BITS, 0, THOUSAND_BITS);
        settling_settles(g.velocity_offset, GYRO_MOUSE_OFFSET_BITS, 0, TEN_BITS);
        flooring_settles(g.min_threshold, ONE_BITS, ONE_BITS);
    }
    assert(t.clamped_spec().clamped_spec() == t.clamped_spec()) by {
        settling_settles(t.sensitivity, ONE_BITS, HUNDREDTH_BITS, HUNDRED_BITS);
        settling_settles(t.velocity_offset, TOUCH_MOUSE_OFFSET_BITS, 0, TEN_BITS);
        flooring_settles(t.min_threshold, ONE_BITS, ONE_BITS);
    }
}

/// Whether `r` is the setting `v` in force: `fallback` where `v` is infinite or no number, else `v`
/// held between `lo` and `hi`, all of them patterns.
pub open spec fn in_force(v: Scalar, r: Scalar, fallback: u64, lo: u64, hi: u64) -> bool {
    let size = v.bits as int % 0x8000_0000_0000_0000;
    &&& size >= 0x7FF0_0000_0000_0000 ==> r.bits == fallback
    &&& size < 0x7FF0_0000_0000_0000 ==> is_held_between(v, r, lo, hi)
}

/// Mouse settings in force lie in their ranges and are as set where they were: sensitivity 0.01 to
/// 100, vertical scale 0.1 to 10, offset 0 to 1, dead zone 0 to 0.99, least motion from 1 on,
/// exponent 0.1 to 8. The switches are as set.
pub proof fn mouse_settings_in_range(m: MouseSettings)
    ensures
        ({
            let c = m.clamped_spec();
            &&& in_force(m.sensitivity, c.sensitivity, 0x4039_0000_0000_0000, 0x3F84_7AE1_47AE_147B, 0x4059_0000_0000_0000)
            &&& in_force(m.vertical_scale, c.vertical_scale, 0x3FF0_0000_0000_0000, 0x3FB9_9999_9999_999A, 0x4024_0000_0000_0000)
            &&& in_force(m.velocity_offset, c.velocity_offset, 0x3F88_9374_BC6A_7EFA, 0, 0x3FF0_0000_0000_0000)
            &&& in_force(m.deadzone, c.deadzone, 0, 0, 0x3FEF_AE14_7AE1_47AE)
            &&& in_force(m.min_threshold, c.min_threshold, 0x3FF0_0000_0000_0000, 0x3FF0_0000_0000_0000, 0x7FEF_FFFF_FFFF_FFFF)
            &&& in_force(m.accel_power, c.accel_power, 0x3FF0_0000_0000_0000, 0x3FB9_9999_9999_999A, 0x4020_0000_0000_0000)
            &&& c.accelerate == m.accelerate && c.invert_x == m.invert_x && c.invert_y == m.invert_y
        }),
{
}

/// Gyro settings in force: sensitivity 0.01 to 100, vertical scale 0.1 to 10, dead zone 0 to 1000,
/// offset 0 to 10, least motion from 1 on. Mode and switches are as set.
pub proof fn gyro_settings_in_range(g: GyroSettings)
    ensures
        ({
            let c = g.clamped_spec();
            &&& in_force(g.sensitivity, c.sensitivity, 0x3FF0_0000_0000_0000, 0x3F84_7AE1_47AE_147B, 0x4059_0000_0000_0000)
            &&& in_force(g.vertical_scale, c.vertical_scale, 0x3FF0_0000_0000_0000, 0x3FB9_9999_9999_999A, 0x4024_0000_0000_0000)
            &&& in_force(g.deadzone, c.deadzone, 0x4024_0000_0000_0000, 0, 0x408F_4000_0000_0000)
            &&& in_force(g.velocity_offset, c.velocity_offset, 0x3FC9_9999_9999_999A, 0, 0x4024_0000_0000_0000)
            &&& in_force(g.min_threshold, c.min_threshold, 0x3FF0_0000_0000_0000, 0x3FF0_0000_0000_0000, 0x7FEF_FFFF_FFFF_FFFF)
            &&& c.mode == g.mode && c.jitter_comp == g.jitter_comp
            &&& c.swap_yaw_roll == g.swap_yaw_roll
            &&& c.invert_x == g.invert_x && c.invert_y == g.invert_y
        }),
{
}

/// Touchpad settings in force: sensitivity 0.01 to 100, offset 0 to 10, least motion from 1 on. The
/// switches are as set.
pub proof fn touchpad_settings_in_range(t: TouchpadSettings)
    ensures
        ({
            let c = t.clamped_spec();
            &&& in_force(t.sensitivity, c.sensitivity, 0x3FF0_0000_0000_0000, 0x3F84_7AE1_47AE_147B, 0x4059_0000_0000_0000)
            &&& in_force(t.velocity_offset, c.velocity_offset, 0x3F8E_B851_EB85_1EB8, 0, 0x4024_0000_0000_0000)
            &&& in_force(t.min_threshold, c.min_threshold, 0x3FF0_0000_0000_0000, 0x3FF0_0000_0000_0000, 0x7FEF_FFFF_FFFF_FFFF)
            &&& c.as_mouse == t.as_mouse && c.as_buttons == t.as_buttons
            &&& c.jitter_comp == t.jitter_comp
            &&& c.invert_x == t.invert_x && c.invert_y == t.invert_y
        }),
{
}

/// The tuning of a source takes every setting over as itself.
pub proof fn tuning_takes_the_settings(m: MouseSettings, g: GyroSettings, t: TouchpadSettings)
    ensures
        ({
            let a = m.accum_cfg();
            &&& a.sensitivity == m.sensitivity && a.vertical_scale == m.vertical_scale
            &&& a.velocity_offset == m.velocity_offset && a.deadzone == m.deadzone
            &&& a.min_threshold == m.min_threshold && a.accelerate == m.accelerate
            &&& a.accel_power == m.accel_power
            &&& a.invert_x == m.invert_x && a.invert_y == m.invert_y
        }),
        ({
            let a = g.accum_cfg();
            &&& a.sensitivity == g.sensitivity && a.vertical_scale == g.vertical_scale
            &&& a.velocity_offset == g.velocity_offset && a.deadzone == g.deadzone
            &&& a.min_threshold == g.min_threshold && a.jitter_comp == g.jitter_comp
            &&& a.invert_x == g.invert_x && a.invert_y == g.invert_y
        }),
        ({
            let a = t.accum_cfg();
            &&& a.sensitivity == t.sensitivity && a.velocity_offset == t.velocity_offset
            &&& a.min_threshold == t.min_threshold && a.jitter_comp == t.jitter_comp
            &&& a.invert_x == t.invert_x && a.invert_y == t.invert_y
        }),
{
}

/// The gyro moves the mouse always, while its trigger is held, or never.
pub proof fn gyro_modes_differ(mode: GyroMode, held: bool)
    ensures
        mode is AlwaysOn ==> mode.active(held),
        mode is TriggerHeld ==> mode.active(held) == held,
        mode is Off || mode is Unknown ==> !mode.active(held),
{
}

/// Settings that nobody has changed tune the accumulators as the accumulators' own defaults do,
/// and lie in their ranges.
pub proof fn motion_defaults_agree()
    ensures
        MouseSettings::default_spec().accum_cfg() == MouseAccumCfg::default_spec(),
        TouchpadSettings::default_spec().accum_cfg() == TouchAccumCfg::default_spec(),
        MouseSettings::default_spec().clamped_spec() == MouseSettings::default_spec(),
        GyroSettings::default_spec().clamped_spec() == GyroSettings::default_spec(),
        TouchpadSettings::default_spec().clamped_spec() == TouchpadSettings::default_spec(),
{
}

/// A mouse button inside a macro.
#[derive(Clone, Copy, Debug, PartialEq, Eq, Structural)]
pub enum MacroMouseButton {
    Left,
    Right,
    Middle,
    X1,
    X2,
    /// A button that is not known here; it works as [`MacroMouseButton::Left`].
    Unknown,
}

impl MacroMouseButton {
    /// The button that is pressed.
    pub open spec fn pressed_button(self) -> MouseButton {
        match self {
            MacroMouseButton::Left | MacroMouseButton::Unknown => MouseButton::Left,
            MacroMouseButton::Right => MouseButton::Right,
            MacroMouseButton::Middle => MouseButton::Middle,
            MacroMouseButton::X1 => MouseButton::X1,
            MacroMouseButton::X2 => MouseButton::X2,
        }
    }

    /// The button that is pressed.
    pub fn to_mouse_button(self) -> (r: MouseButton)
        ensures
            r == self.pressed_button(),
            r == (match self {
                MacroMouseButton::Left | MacroMouseButton::Unknown => MouseButton::Left,
                MacroMouseButton::Right => MouseButton::Right,
                MacroMouseButton::Middle => MouseButton::Middle,
                MacroMouseButton::X1 => MouseButton::X1,
                MacroMouseButton::X2 => MouseButton::X2,
            }),
    {
        match self {
            MacroMouseButton::Left | MacroMouseButton::Unknown => MouseButton::Left,
            MacroMouseButton::Right => MouseButton::Right,
            MacroMouseButton::Middle => MouseButton::Middle,
            MacroMouseButton::X1 => MouseButton::X1,
            MacroMouseButton::X2 => MouseButton::X2,
        }
    }
}

/// A button of a macro presses the mouse button of its name, and one that is not known the left
/// one.
pub proof fn macro_buttons_keep_their_names(b: MacroMouseButton)
    ensures
        b.pressed_button() is Left <==> b is Left || b is Unknown,
        b.pressed_button() is Right <==> b is Right,
        b.pressed_button() is Middle <==> b is Middle,
        b.pressed_button() is X1 <==> b is X1,
        b.pressed_button() is X2 <==> b is X2,
{
}

/// One step of a macro.
#[derive(Clone, Copy, Debug, PartialEq, Eq, Structural)]
pub enum MacroStep {
    KeyDown { vk: u16, scan_code: bool },
    KeyUp { vk: u16, scan_code: bool },
    MouseDown(MacroMouseButton),
    MouseUp(MacroMouseButton),
    /// Pause in milliseconds.
    Wait { ms: u32 },
    /// A step that is not known here; it is skipped.
    Unknown,
}

/// A macro.
#[derive(Debug, PartialEq, Eq)]
pub struct MacroDef {
    /// Number by which bindings refer to it.
    pub id: u16,
    pub name: String,
    /// Whether it starts over while its control is held.
    pub repeat: bool,
    pub steps: Vec<MacroStep>,
}

impl MacroDef {
    /// Whether two macros are the same in every field.
    pub open spec fn same_as(self, other: MacroDef) -> bool {
        &&& self.id == other.id
        &&& self.name@ == other.name@
        &&& self.repeat == other.repeat
        &&& self.steps@ == other.steps@
    }
}

impl Default for MacroDef {
    fn default() -> (r: MacroDef)
        ensures
            r.id == 0,
            r.name@.len() == 0,
            !r.repeat,
            r.steps@.len() == 0,
    {
        MacroDef { id: 0, name: String::new(), repeat: false, steps: Vec::new() }
    }
}

impl Clone for MacroDef {
    fn clone(&self) -> (r: MacroDef)
        ensures
            r.same_as(*self),
    {
        let mut steps: Vec<MacroStep> = Vec::new();
        let mut i: usize = 0;
        while i < self.steps.len()
            invariant
                i <= self.steps@.len(),
                steps@ == self.steps@.subrange(0, i as int),
            decreases self.steps@.len() - i,
        {
            steps.push(self.steps[i]);
            i = i + 1;
            assert(self.steps@.subrange(0, i as int) =~= self.steps@.subrange(0, i - 1).push(
                self.steps@[i - 1],
            ));
        }
        assert(self.steps@.subrange(0, i as int) =~= self.steps@);
        MacroDef { id: self.id, name: self.name.clone(), repeat: self.repeat, steps }
    }
}

/// A named special action.
#[derive(Debug, PartialEq, Eq)]
pub struct SpecialAction {
    /// Number by which bindings refer to it.
    pub id: u16,
    pub name: String,
}

impl Default for SpecialAction {
    fn default() -> (r: SpecialAction)
        ensures
            r.id == 0,
            r.name@.len() == 0,
    {
        SpecialAction { id: 0, name: String::new() }
    }
}

impl Clone for SpecialAction {
    fn clone(&self) -> (r: SpecialAction)
        ensures
            r == *self,
    {
        SpecialAction { id: self.id, name: self.name.clone() }
    }
}

/// The configured controls of a profile; all others pass through.
#[derive(Clone, Copy, Debug, PartialEq, Eq)]
pub struct Bindings {
    slots: [Option<BindingSlot>; 47],
}

impl View for Bindings {
    type V = Seq<Option<BindingSlot>>;

    closed spec fn view(&self) -> Seq<Option<BindingSlot>> {
        self.slots@
    }
}

impl Bindings {
    /// What is configured for a control.
    pub open spec fn at(self, c: Control) -> Option<BindingSlot> {
        self@[c.index()]
    }

    /// What a control does: what is configured, or passing through.
    pub open spec fn effective(self, c: Control) -> BindingSlot {
        match self.at(c) {
            Some(slot) => slot,
            None => BindingSlot::of(BindTarget::Passthrough),
        }
    }

    /// Nothing configured.
    pub fn new() -> (r: Bindings)
        ensures
            r@.len() == CONTROL_COUNT,
            forall|c: Control| #[trigger] r.at(c) is None,
    {
        Bindings { slots: [None; 47] }
    }

    /// Configures a control and returns what was configured before.
    pub fn insert(&mut self, c: Control, slot: BindingSlot) -> (r: Option<BindingSlot>)
        ensures
            r == old(self).at(c),
            final(self)@ == old(self)@.update(c.index(), Some(slot)),
            final(self)@.len() == CONTROL_COUNT,
    {
        let i: usize = c.as_index();
        let before: Option<BindingSlot> = self.slots[i];
        self.slots[i] = Some(slot);
        before
    }

    /// Takes a control's configuration away and returns it.
    pub fn remove(&mut self, c: Control) -> (r: Option<BindingSlot>)
        ensures
            r == old(self).at(c),
            final(self)@ == old(self)@.update(c.index(), None),
            final(self)@.len() == CONTROL_COUNT,
    {
        let i: usize = c.as_index();
        let before: Option<BindingSlot> = self.slots[i];
        self.slots[i] = None;
        before
    }

    /// What is configured for a control.
    pub fn get(&self, c: Control) -> (r: Option<BindingSlot>)
        ensures
            r == self.at(c),
    {
        self.slots[c.as_index()]
    }
}

impl Default for Bindings {
    fn default() -> (r: Bindings)
        ensures
            r@.len() == CONTROL_COUNT,
            forall|c: Control| #[trigger] r.at(c) is None,
    {
        Bindings::new()
    }
}

/// Configuring a control reads back for it and changes no other control.
pub proof fn binding_is_read_back(b: Bindings, after: Bindings, c: Control, d: Control, s: BindingSlot)
    requires
        b@.len() == CONTROL_COUNT,
        after@ == b@.update(c.index(), Some(s)),
    ensures
        after.at(c) == Some(s),
        c != d ==> after.at(d) == b.at(d),
{
    crate::input::control::all_is_dense();
}

/// An editable profile.
#[derive(Debug, PartialEq, Eq)]
pub struct Profile {
    pub name: String,
    /// Which pad it drives.
    pub output_kind: PadTarget,
    pub bindings: Bindings,
    /// Left stick.
    pub ls: StickSettings,
    /// Right stick.
    pub rs: StickSettings,
    /// Left trigger.
    pub l2: TriggerSettings,
    /// Right trigger.
    pub r2: TriggerSettings,
    pub mouse: MouseSettings,
    pub gyro: GyroSettings,
    pub touchpad: TouchpadSettings,
    pub macros: Vec<MacroDef>,
    pub specials: Vec<SpecialAction>,
}

/// Whether two lists hold the same macros in the same order.
pub open spec fn same_macros(a: Seq<MacroDef>, b: Seq<MacroDef>) -> bool {
    a.len() == b.len() && forall|i: int| 0 <= i < a.len() ==> (#[trigger] a[i]).same_as(b[i])
}

impl Profile {
    /// Whether two profiles agree in everything but the name.
    pub open spec fn same_settings(self, other: Profile) -> bool {
        &&& self.output_kind == other.output_kind
        &&& self.bindings == other.bindings
        &&& self.ls == other.ls
        &&& self.rs == other.rs
        &&& self.l2 == other.l2
        &&& self.r2 == other.r2
        &&& self.mouse == other.mouse
        &&& self.gyro == other.gyro
        &&& self.touchpad == other.touchpad
        &&& same_macros(self.macros@, other.macros@)
        &&& self.specials@ == other.specials@
    }

    /// Whether nothing but the name is configured.
    pub open spec fn untouched(self) -> bool {
        &&& self.output_kind == PadTarget::X360
        &&& self.bindings@.len() == CONTROL_COUNT
        &&& forall|c: Control| #[trigger] self.bindings.at(c) is None
        &&& self.ls == StickSettings::default_spec()
        &&& self.rs == StickSettings::default_spec()
        &&& self.l2 == TriggerSettings::default_spec()
        &&& self.r2 == TriggerSettings::default_spec()
        &&& self.mouse == MouseSettings::default_spec()
        &&& self.gyro == GyroSettings::default_spec()
        &&& self.touchpad == TouchpadSettings::default_spec()
        &&& self.macros@.len() == 0
        &&& self.specials@.len() == 0
    }

    /// A copy under another name.
    pub fn copy_as(&self, name: String) -> (r: Profile)
        ensures
            r.name == name,
            r.same_settings(*self),
    {
        let mut specials: Vec<SpecialAction> = Vec::new();
        let mut i: usize = 0;
        while i < self.specials.len()
            invariant
                i <= self.specials@.len(),
                specials@ == self.specials@.subrange(0, i as int),
            decreases self.specials@.len() - i,
        {
            specials.push(self.specials[i].clone());
            i = i + 1;
            assert(self.specials@.subrange(0, i as int) =~= self.specials@.subrange(0, i - 1).push(
                self.specials@[i - 1],
            ));
        }
        assert(self.specials@.subrange(0, i as int) =~= self.specials@);
        Profile {
            name,
            output_kind: self.output_kind,
            bindings: self.bindings,
            ls: self.ls,
            rs: self.rs,
            l2: self.l2,
            r2: self.r2,
            mouse: self.mouse,
            gyro: self.gyro,
            touchpad: self.touchpad,
            macros: clone_macros(&self.macros),
            specials,
        }
    }

    /// Whether a resolved profile is this one's: each control's slot where it is configured and
    /// passing through elsewhere, every setting in its range, the usual thresholds, and the same
    /// macros.
    pub open spec fn resolves_to(self, r: ResolvedProfile) -> bool {
        &&& forall|c: Control| #[trigger] r.slot_spec(c) == self.bindings.effective(c)
        &&& r.ls == self.ls.clamped_spec()
        &&& r.rs == self.rs.clamped_spec()
        &&& r.l2 == self.l2.resolved_spec()
        &&& r.r2 == self.r2.resolved_spec()
        &&& r.thresholds == Thresholds::default_spec()
        &&& r.output_kind == self.output_kind
        &&& r.mouse == self.mouse.clamped_spec()
        &&& r.gyro == self.gyro.clamped_spec()
        &&& r.touchpad == self.touchpad.clamped_spec()
        &&& same_macros(r.macros@, self.macros@)
    }

    /// Resolves the profile into the flat form that the engine reads.
    pub fn resolve(&self) -> (r: ResolvedProfile)
        ensures
            self.resolves_to(r),
    {
        let mut base: [BindingSlot; 47] = [BindingSlot::from_bind(BindTarget::Passthrough); 47];
        let mut i: usize = 0;
        proof {
            crate::input::control::all_is_dense();
        }
        while i < CONTROL_COUNT
            invariant
                i <= CONTROL_COUNT,
                base@.len() == CONTROL_COUNT,
                forall|k: int|
                    0 <= k < i ==> #[trigger] base@[k] == self.bindings.effective(
                        crate::input::control::control_at(k),
                    ),
                forall|k: int|
                    i <= k < CONTROL_COUNT ==> #[trigger] base@[k] == BindingSlot::of(
                        BindTarget::Passthrough,
                    ),
            decreases CONTROL_COUNT - i,
        {
            proof {
                crate::input::control::all_is_dense();
            }
            let c: Control = Control::ALL[i];
            assert(c == crate::input::control::control_at(i as int));
            if let Some(slot) = self.bindings.get(c) {
                base[i] = slot;
            }
            i = i + 1;
        }
        let macros: Vec<MacroDef> = clone_macros(&self.macros);
        let r: ResolvedProfile = ResolvedProfile {
            base,
            ls: self.ls.clamped(),
            rs: self.rs.clamped(),
            l2: self.l2.resolved(),
            r2: self.r2.resolved(),
            thresholds: Thresholds::default(),
            output_kind: self.output_kind,
            mouse: self.mouse.clamped(),
            gyro: self.gyro.clamped(),
            touchpad: self.touchpad.clamped(),
            macros,
        };
        assert forall|c: Control| #[trigger] r.slot_spec(c) == self.bindings.effective(c) by {
            crate::input::control::all_is_dense();
            assert(crate::input::control::control_at(c.index()) == c);
        }
        r
    }
}

/// Copies a list of macros.
pub fn clone_macros(list: &Vec<MacroDef>) -> (r: Vec<MacroDef>)
    ensures
        same_macros(r@, list@),
{
    let mut out: Vec<MacroDef> = Vec::new();
    let mut i: usize = 0;
    while i < list.len()
        invariant
            i <= list@.len(),
            out@.len() == i,
            forall|k: int| 0 <= k < i ==> (#[trigger] out@[k]).same_as(list@[k]),
        decreases list@.len() - i,
    {
        let m: MacroDef = list[i].clone();
        out.push(m);
        i = i + 1;
    }
    out
}

impl Clone for Profile {
    fn clone(&self) -> (r: Profile)
        ensures
            r.name == self.name,
            r.same_settings(*self),
    {
        self.copy_as(self.name.clone())
    }
}

impl Default for Profile {
    fn default() -> (r: Profile)
        ensures
            r.name@.len() == 0,
            r.untouched(),
    {
        Profile {
            name: String::new(),
            output_kind: PadTarget::X360,
            bindings: Bindings::new(),
            ls: StickSettings::default(),
            rs: StickSettings::default(),
            l2: TriggerSettings::default(),
            r2: TriggerSettings::default(),
            mouse: MouseSettings::default(),
            gyro: GyroSettings::default(),
            touchpad: TouchpadSettings::default(),
            macros: Vec::new(),
            specials: Vec::new(),
        }
    }
}

/// A profile in the form that the engine reads.
#[derive(Debug)]
pub struct ResolvedProfile {
    /// One slot per control, in table order.
    pub base: [BindingSlot; 47],
    pub ls: StickSettings,
    pub rs: StickSettings,
    pub l2: TriggerSettings,
    pub r2: TriggerSettings,
    pub thresholds: Thresholds,
    pub output_kind: PadTarget,
    pub mouse: MouseSettings,
    pub gyro: GyroSettings,
    pub touchpad: TouchpadSettings,
    pub macros: Vec<MacroDef>,
}

impl ResolvedProfile {
    /// The slot of a control.
    pub open spec fn slot_spec(self, c: Control) -> BindingSlot {
        self.base@[c.index()]
    }

    /// Whether every control passes through and every setting is the usual one.
    pub open spec fn plain(self) -> bool {
        &&& forall|c: Control|
            #[trigger] self.slot_spec(c) == BindingSlot::of(BindTarget::Passthrough)
        &&& self.ls == StickSettings::default_spec()
        &&& self.rs == StickSettings::default_spec()
        &&& self.l2 == TriggerSettings::default_spec()
        &&& self.r2 == TriggerSettings::default_spec()
        &&& self.thresholds == Thresholds::default_spec()
        &&& self.output_kind == PadTarget::X360
        &&& self.mouse == MouseSettings::default_spec()
        &&& self.gyro == GyroSettings::default_spec()
        &&& self.touchpad == TouchpadSettings::default_spec()
        &&& self.macros@.len() == 0
    }

    /// The slot of a control.
    pub fn slot(&self, c: Control) -> (r: &BindingSlot)
        ensures
            *r == self.slot_spec(c),
    {
        &self.base[c.as_index()]
    }
}

impl Default for ResolvedProfile {
    fn default() -> (r: ResolvedProfile)
        ensures
            r.plain(),
    {
        let r: ResolvedProfile = ResolvedProfile {
            base: [BindingSlot::from_bind(BindTarget::Passthrough); 47],
            ls: StickSettings::default(),
            rs: StickSettings::default(),
            l2: TriggerSettings::default(),
            r2: TriggerSettings::default(),
            thresholds: Thresholds::default(),
            output_kind: PadTarget::X360,
            mouse: MouseSettings::default(),
            gyro: GyroSettings::default(),
            touchpad: TouchpadSettings::default(),
            macros: Vec::new(),
        };
        assert forall|c: Control|
            #[trigger] r.slot_spec(c) == BindingSlot::of(BindTarget::Passthrough) by {
            crate::input::control::all_is_dense();
            assert(0 <= c.index() < CONTROL_COUNT);
        }
        r
    }
}

/// A resolved profile does for each control what is configured for it, and lets every other control
/// through; left and right stay left and right.
pub proof fn resolving_keeps_the_bindings(p: Profile, r: ResolvedProfile, c: Control)
    requires
        p.resolves_to(r),
    ensures
        p.bindings.at(c) matches Some(s) ==> r.slot_spec(c) == s,
        p.bindings.at(c) is None ==> {
            let s = r.slot_spec(c);
            s.bind is Passthrough && s.shift_trigger is None && s.turbo is None
        },
        r.ls == p.ls.clamped_spec() && r.rs == p.rs.clamped_spec(),
        r.l2 == p.l2.resolved_spec() && r.r2 == p.r2.resolved_spec(),
        r.mouse == p.mouse.clamped_spec() && r.gyro == p.gyro.clamped_spec(),
        r.touchpad == p.touchpad.clamped_spec() && r.output_kind == p.output_kind,
        r.macros@.len() == p.macros@.len(),
        forall|i: int|
            0 <= i < p.macros@.len() ==> (#[trigger] r.macros@[i]).id == p.macros@[i].id
                && r.macros@[i].name@ == p.macros@[i].name@ && r.macros@[i].repeat
                == p.macros@[i].repeat && r.macros@[i].steps@ == p.macros@[i].steps@,
{
    assert(r.slot_spec(c) == p.bindings.effective(c));
}

/// A copy of a profile has all of its settings, each in its place.
pub proof fn copies_have_everything(a: Profile, b: Profile)
    requires
        a.same_settings(b),
    ensures
        a.output_kind == b.output_kind && a.bindings == b.bindings,
        a.ls == b.ls && a.rs == b.rs && a.l2 == b.l2 && a.r2 == b.r2,
        a.mouse == b.mouse && a.gyro == b.gyro && a.touchpad == b.touchpad,
        a.specials@ == b.specials@ && a.macros@.len() == b.macros@.len(),
        forall|i: int|
            0 <= i < a.macros@.len() ==> (#[trigger] a.macros@[i]).id == b.macros@[i].id
                && a.macros@[i].name@ == b.macros@[i].name@ && a.macros@[i].repeat
                == b.macros@[i].repeat && a.macros@[i].steps@ == b.macros@[i].steps@,
{
}

/// A profile in which nothing is configured resolves to the plain one.
pub proof fn empty_profile_resolves_plain(p: Profile, r: ResolvedProfile)
    requires
        p.resolves_to(r),
        p.untouched(),
    ensures
        r.plain(),
{
    stick_default_is_clamped();
    trigger_clamp_settles(TriggerSettings::default_spec());
    motion_defaults_agree();
    assert forall|c: Control|
        #[trigger] r.slot_spec(c) == BindingSlot::of(BindTarget::Passthrough) by {
        assert(r.slot_spec(c) == p.bindings.effective(c));
        assert(p.bindings.at(c) is None);
    }
}

/// A profile that nobody has configured: the gyro is off, the touchpad clicks and does not move the
/// mouse, nothing is turned over, and every value is in its range.
pub proof fn untouched_settings_are_plain()
    ensures
        ({
            let m = MouseSettings::default_spec();
            &&& m.sensitivity.bits == 0x4039_0000_0000_0000
            &&& m.vertical_scale.bits == 0x3FF0_0000_0000_0000
            &&& m.velocity_offset.bits == 0x3F88_9374_BC6A_7EFA
            &&& m.deadzone.bits == 0 && m.min_threshold.bits == 0x3FF0_0000_0000_0000
            &&& !m.accelerate && m.accel_power.bits == 0x3FF0_0000_0000_0000
            &&& !m.invert_x && !m.invert_y
            &&& m.clamped_spec() == m
        }),
        ({
            let g = GyroSettings::default_spec();
            &&& g.mode is Off && g.jitter_comp && !g.invert_x && !g.invert_y && !g.swap_yaw_roll
            &&& g.sensitivity.bits == 0x3FF0_0000_0000_0000
            &&& g.vertical_scale.bits == 0x3FF0_0000_0000_0000
            &&& g.deadzone.bits == 0x4024_0000_0000_0000
            &&& g.velocity_offset.bits == 0x3FC9_9999_9999_999A
            &&& g.min_threshold.bits == 0x3FF0_0000_0000_0000
            &&& g.clamped_spec() == g
        }),
        ({
            let t = TouchpadSettings::default_spec();
            &&& !t.as_mouse && t.as_buttons && t.jitter_comp && !t.invert_x && !t.invert_y
            &&& t.sensitivity.bits == 0x3FF0_0000_0000_0000
            &&& t.velocity_offset.bits == 0x3F8E_B851_EB85_1EB8
            &&& t.min_threshold.bits == 0x3FF0_0000_0000_0000
            &&& t.clamped_spec() == t
        }),
{
}

} // verus!
