//! Trigger settings and the digital stages of a trigger.
//!
//! The numeric chain of a trigger (dead zone, range, curve) is the caller's; here are the choice
//! of its steps and the stages that a pull fires. Stages compare whole trigger units, 0 to 255.

use vstd::prelude::*;

use crate::ints::{clamp_i32, clamp_int, clamp_u32};
use crate::scalar::{Scalar, ONE_BITS};
use crate::stick::settings::{OutputCurve, HUNDRED_BITS};

verus! {

/// The shape of a trigger's output.
#[derive(Clone, Copy, Debug, PartialEq, Eq, Structural)]
pub enum TriggerCurve {
    Linear,
    EnhancedPrecision,
    Quadratic,
    Cubic,
    EaseoutQuad,
    EaseoutCubic,
    Bezier,
    ApexClassicInverse,
    /// On a single axis the same as [`TriggerCurve::ApexClassicInverse`].
    ApexClassicInverseAxial,
}

impl TriggerCurve {
    /// The stick curve of the same name.
    pub open spec fn stick_curve(self) -> OutputCurve {
        match self {
            TriggerCurve::Linear => OutputCurve::Linear,
            TriggerCurve::EnhancedPrecision => OutputCurve::EnhancedPrecision,
            TriggerCurve::Quadratic => OutputCurve::Quadratic,
            TriggerCurve::Cubic => OutputCurve::Cubic,
            TriggerCurve::EaseoutQuad => OutputCurve::EaseoutQuad,
            TriggerCurve::EaseoutCubic => OutputCurve::EaseoutCubic,
            TriggerCurve::Bezier => OutputCurve::Bezier,
            TriggerCurve::ApexClassicInverse => OutputCurve::ApexClassicInverse,
            TriggerCurve::ApexClassicInverseAxial => OutputCurve::ApexClassicInverseAxial,
        }
    }

    /// The persisted number of this curve, the same as that of the stick curve of its name.
    pub fn mode(self) -> (r: u8)
        ensures
            r == self.stick_curve().mode_spec(),
    {
        match self {
            TriggerCurve::Linear => 0,
            TriggerCurve::EnhancedPrecision => 1,
            TriggerCurve::Quadratic => 2,
            TriggerCurve::Cubic => 3,
            TriggerCurve::EaseoutQuad => 4,
            TriggerCurve::EaseoutCubic => 5,
            TriggerCurve::Bezier => 6,
            TriggerCurve::ApexClassicInverse => 7,
            TriggerCurve::ApexClassicInverseAxial => 8,
        }
    }
}

impl Default for TriggerCurve {
    fn default() -> (r: TriggerCurve)
        ensures
            r == TriggerCurve::Linear,
    {
        TriggerCurve::Linear
    }
}

impl From<TriggerCurve> for OutputCurve {
    fn from(c: TriggerCurve) -> (r: OutputCurve) {
        match c {
            TriggerCurve::Linear => OutputCurve::Linear,
            TriggerCurve::EnhancedPrecision => OutputCurve::EnhancedPrecision,
            TriggerCurve::Quadratic => OutputCurve::Quadratic,
            TriggerCurve::Cubic => OutputCurve::Cubic,
            TriggerCurve::EaseoutQuad => OutputCurve::EaseoutQuad,
            TriggerCurve::EaseoutCubic => OutputCurve::EaseoutCubic,
            TriggerCurve::Bezier => OutputCurve::Bezier,
            TriggerCurve::ApexClassicInverse => OutputCurve::ApexClassicInverse,
            TriggerCurve::ApexClassicInverseAxial => OutputCurve::ApexClassicInverseAxial,
        }
    }
}

impl vstd::std_specs::convert::FromSpecImpl<TriggerCurve> for OutputCurve {
    open spec fn obeys_from_spec() -> bool {
        true
    }

    open spec fn from_spec(c: TriggerCurve) -> OutputCurve {
        c.stick_curve()
    }
}

/// How a trigger pull becomes button presses.
#[derive(Clone, Copy, Debug, PartialEq, Eq, Structural)]
pub enum TriggerMode {
    /// One stage.
    Normal,
    /// A light and a full pull, independent of each other.
    TwoStage,
    /// A light and a full pull that exclude each other: the light one waits for a while.
    HipFire,
    /// A mode that is not known here; it works as [`TriggerMode::Normal`].
    Unknown,
}

impl Default for TriggerMode {
    fn default() -> (r: TriggerMode)
        ensures
            r == TriggerMode::Normal,
    {
        TriggerMode::Normal
    }
}

/// What a trigger gives on a report.
#[derive(Clone, Copy, Debug, PartialEq, Eq, Structural)]
pub struct TriggerOutput {
    /// Processed pull in `[0,1]`.
    pub analog: Scalar,
    /// The light pull.
    pub soft_pull: bool,
    /// The full pull.
    pub full_pull: bool,
}

/// All settings of one trigger.
#[derive(Clone, Copy, Debug, PartialEq, Eq, Structural)]
pub struct TriggerSettings {
    /// Dead zone in trigger units.
    pub dead_zone: u8,
    /// Least output in percent, 0 to 100.
    pub anti_dead_zone: i32,
    /// Input range that reaches full output, in percent, 1 to 100.
    pub max_zone: i32,
    /// Largest output in percent, 0 to 100.
    pub max_output: Scalar,
    /// Output multiplier.
    pub sensitivity: Scalar,
    pub curve: TriggerCurve,
    /// Pull that counts as pressed, in trigger units; 0 stands for the usual one.
    pub button_threshold: u8,
    pub mode: TriggerMode,
    /// Pull that counts as a light pull; 0 stands for `button_threshold`.
    pub soft_threshold: u8,
    /// How long a light pull waits for a full one, in microseconds.
    pub hip_fire_us: u32,
}

/// The pull that usually counts as pressed.
pub const USUAL_THRESHOLD: u8 = 100;

/// The usual wait of a light pull: 100 ms.
pub fn default_hip_fire_us() -> (r: u32)
    ensures
        r == 100_000,
        r == TriggerSettings::default_spec().hip_fire_us,
{
    100_000
}

impl TriggerSettings {
    /// Everything off, pressed from 100 units.
    pub open spec fn default_spec() -> TriggerSettings {
        TriggerSettings {
            dead_zone: 0,
            anti_dead_zone: 0,
            max_zone: 100,
            max_output: Scalar { bits: HUNDRED_BITS },
            sensitivity: Scalar { bits: ONE_BITS },
            curve: TriggerCurve::Linear,
            button_threshold: USUAL_THRESHOLD,
            mode: TriggerMode::Normal,
            soft_threshold: 0,
            hip_fire_us: 100_000,
        }
    }

    /// The settings with every field in its range.
    pub open spec fn clamped_spec(self) -> TriggerSettings {
        TriggerSettings {
            anti_dead_zone: clamp_int(self.anti_dead_zone as int, 0, 100) as i32,
            max_zone: clamp_int(self.max_zone as int, 1, 100) as i32,
            max_output: self.max_output.clamp_spec(
                Scalar { bits: 0 },
                Scalar { bits: HUNDRED_BITS },
            ),
            hip_fire_us: clamp_int(self.hip_fire_us as int, 1_000, 5_000_000) as u32,
            ..self
        }
    }

    /// A copy with every field in its range.
    pub fn clamped(&self) -> (r: TriggerSettings)
        ensures
            r == self.clamped_spec(),
    {
        let mut out: TriggerSettings = *self;
        out.anti_dead_zone = clamp_i32(self.anti_dead_zone, 0, 100);
        out.max_zone = clamp_i32(self.max_zone, 1, 100);
        out.max_output = self.max_output.clamp(Scalar { bits: 0 }, Scalar { bits: HUNDRED_BITS });
        out.hip_fire_us = clamp_u32(self.hip_fire_us, 1_000, 5_000_000);
        out
    }

    /// The settings that are in force: in their ranges, with the usual threshold where none is set.
    pub open spec fn resolved_spec(self) -> TriggerSettings {
        TriggerSettings {
            button_threshold: if self.button_threshold == 0 {
                USUAL_THRESHOLD
            } else {
                self.button_threshold
            },
            ..self.clamped_spec()
        }
    }

    /// The settings that are in force.
    pub fn resolved(&self) -> (r: TriggerSettings)
        ensures
            r == self.resolved_spec(),
    {
        let mut out: TriggerSettings = self.clamped();
        if out.button_threshold == 0 {
            out.button_threshold = USUAL_THRESHOLD;
        }
        out
    }

    /// The pull that counts as pressed; never inside the dead zone.
    pub open spec fn base_threshold(self) -> u8 {
        if self.button_threshold >= self.dead_zone {
            self.button_threshold
        } else {
            self.dead_zone
        }
    }

    /// The pull that counts as a light pull; never inside the dead zone.
    pub open spec fn light_threshold(self) -> u8 {
        if self.soft_threshold == 0 {
            self.base_threshold()
        } else if self.soft_threshold >= self.dead_zone {
            self.soft_threshold
        } else {
            self.dead_zone
        }
    }

    /// Which steps of the numeric chain change anything.
    pub open spec fn chain_spec(self) -> TriggerChain {
        let capped = !self.max_output.num_eq_spec(Scalar { bits: HUNDRED_BITS });
        TriggerChain {
            capped,
            rescaled: self.dead_zone > 0 || self.anti_dead_zone > 0 || self.max_zone != 100 || capped,
            multiplied: !self.sensitivity.num_eq_spec(Scalar { bits: ONE_BITS }),
            curved: self.curve != TriggerCurve::Linear,
        }
    }

    /// Which steps of the numeric chain change anything.
    pub fn chain(&self) -> (r: TriggerChain)
        ensures
            r == self.chain_spec(),
            r.capped == !self.max_output.num_eq_spec(Scalar { bits: HUNDRED_BITS }),
            r.rescaled == (self.dead_zone > 0 || self.anti_dead_zone > 0 || self.max_zone != 100
                || r.capped),
            r.multiplied == !self.sensitivity.num_eq_spec(Scalar { bits: ONE_BITS }),
            r.curved == (self.curve != TriggerCurve::Linear),
    {
        let capped: bool = !self.max_output.num_eq(Scalar { bits: HUNDRED_BITS });
        TriggerChain {
            capped,
            rescaled: self.dead_zone > 0 || self.anti_dead_zone > 0 || self.max_zone != 100
                || capped,
            multiplied: !self.sensitivity.num_eq(Scalar { bits: ONE_BITS }),
            curved: self.curve != TriggerCurve::Linear,
        }
    }
}

/// Which steps of a trigger's numeric chain run.
#[derive(Clone, Copy, Debug, PartialEq, Eq, Structural)]
pub struct TriggerChain {
    /// The pull is rescaled to its dead zone and range.
    pub rescaled: bool,
    /// The rescaled pull is held below the largest output.
    pub capped: bool,
    /// The pull is multiplied.
    pub multiplied: bool,
    /// The pull is shaped.
    pub curved: bool,
}

impl Default for TriggerSettings {
    fn default() -> (r: TriggerSettings)
        ensures
            r == TriggerSettings::default_spec(),
    {
        TriggerSettings {
            dead_zone: 0,
            anti_dead_zone: 0,
            max_zone: 100,
            max_output: Scalar { bits: HUNDRED_BITS },
            sensitivity: Scalar { bits: ONE_BITS },
            curve: TriggerCurve::Linear,
            button_threshold: USUAL_THRESHOLD,
            mode: TriggerMode::Normal,
            soft_threshold: 0,
            hip_fire_us: default_hip_fire_us(),
        }
    }
}

/// Clamping twice is clamping once, and the default settings are in their ranges.
pub proof fn trigger_clamp_settles(s: TriggerSettings)
    ensures
        s.clamped_spec().clamped_spec() == s.clamped_spec(),
        TriggerSettings::default_spec().clamped_spec() == TriggerSettings::default_spec(),
        1_000 <= s.clamped_spec().hip_fire_us <= 5_000_000,
{
}

/// The resident state of one trigger.
#[derive(Clone, Copy, Debug, PartialEq, Eq, Structural)]
pub struct TriggerState {
    /// Whether a stage fired on the last report.
    pub last_pressed: bool,
    /// Running time in microseconds.
    pub elapsed_us: i64,
    /// Whether a light pull is waiting or has fired.
    pub hip_active: bool,
    /// Running time at which that pull began.
    pub hip_start_us: i64,
}

impl Default for TriggerState {
    fn default() -> (r: TriggerState)
        ensures
            r == (TriggerState {
                last_pressed: false,
                elapsed_us: 0,
                hip_active: false,
                hip_start_us: 0,
            }),
    {
        TriggerState { last_pressed: false, elapsed_us: 0, hip_active: false, hip_start_us: 0 }
    }
}

/// Whether a pull of `level` units reaches a threshold; a threshold of 0 is never reached.
pub open spec fn reaches(level: u8, threshold: u8) -> bool {
    threshold > 0 && level >= threshold
}

/// The state after a report at `level`, `dt_us` after the last one, and the stages that it fires
/// (light, full).
pub open spec fn staged(cfg: TriggerSettings, st: TriggerState, level: u8, dt_us: i64) -> (
    TriggerState,
    bool,
    bool,
) {
    let now = st.elapsed_us.wrapping_add(dt_us);
    match cfg.mode {
        TriggerMode::Normal | TriggerMode::Unknown => {
            let on = reaches(level, cfg.base_threshold());
            (TriggerState { elapsed_us: now, last_pressed: on, ..st }, on, on)
        },
        TriggerMode::TwoStage => {
            let soft = reaches(level, cfg.light_threshold());
            let full = level == 255;
            (TriggerState { elapsed_us: now, last_pressed: soft || full, ..st }, soft, full)
        },
        TriggerMode::HipFire => if !reaches(level, cfg.light_threshold()) {
            (
                TriggerState { elapsed_us: now, last_pressed: false, hip_active: false, ..st },
                false,
                false,
            )
        } else {
            let start = if st.hip_active {
                st.hip_start_us
            } else {
                now
            };
            let full = level == 255;
            let soft = !full && now.wrapping_sub(start) >= cfg.hip_fire_us;
            (
                TriggerState {
                    elapsed_us: now,
                    last_pressed: soft || full,
                    hip_active: true,
                    hip_start_us: start,
                },
                soft,
                full,
            )
        },
    }
}

/// Whether a pull reaches a threshold.
fn reached(level: u8, threshold: u8) -> (r: bool)
    ensures
        r == reaches(level, threshold),
{
    threshold > 0 && level >= threshold
}

/// The larger of two trigger levels.
fn larger(a: u8, b: u8) -> (r: u8)
    ensures
        r == (if a >= b {
            a
        } else {
            b
        }),
{
    if a >= b {
        a
    } else {
        b
    }
}

/// The stages of a pull in the mode where the light one waits for the full one. The wait starts
/// with the light pull and ends with it.
fn hip_fire_stage(level: u8, soft_th: u8, cfg: &TriggerSettings, st: &mut TriggerState) -> (r: (
    bool,
    bool,
))
    ensures
        ({
            let engaged = reaches(level, soft_th);
            let start = if old(st).hip_active {
                old(st).hip_start_us
            } else {
                old(st).elapsed_us
            };
            let full = engaged && level == 255;
            let soft = engaged && !full && old(st).elapsed_us.wrapping_sub(start)
                >= cfg.hip_fire_us;
            &&& r == (soft, full)
            &&& *final(st) == (if engaged {
                TriggerState { hip_active: true, hip_start_us: start, ..*old(st) }
            } else {
                TriggerState { hip_active: false, ..*old(st) }
            })
        }),
{
    if !reached(level, soft_th) {
        st.hip_active = false;
        return (false, false);
    }
    if !st.hip_active {
        st.hip_active = true;
        st.hip_start_us = st.elapsed_us;
    }
    let waited: i64 = st.elapsed_us.wrapping_sub(st.hip_start_us);
    if level == 255 {
        (false, true)
    } else if waited < cfg.hip_fire_us as i64 {
        (false, false)
    } else {
        (true, false)
    }
}

/// Settles the stages of a report. `level` is the pull in whole trigger units, `analog` the
/// result of the numeric chain, `dt_us` the time since the last report.
pub fn process_trigger_staged(
    level: u8,
    analog: Scalar,
    cfg: &TriggerSettings,
    st: &mut TriggerState,
    dt_us: i64,
) -> (r: TriggerOutput)
    ensures
        r.analog == analog,
        (*final(st), r.soft_pull, r.full_pull) == staged(*cfg, *old(st), level, dt_us),
{
    st.elapsed_us = st.elapsed_us.wrapping_add(dt_us);
    let base: u8 = larger(cfg.button_threshold, cfg.dead_zone);
    let light: u8 = if cfg.soft_threshold > 0 {
        larger(cfg.soft_threshold, cfg.dead_zone)
    } else {
        base
    };
    let (soft_pull, full_pull): (bool, bool) = match cfg.mode {
        TriggerMode::Normal | TriggerMode::Unknown => {
            let on: bool = reached(level, base);
            (on, on)
        },
        TriggerMode::TwoStage => (reached(level, light), level == 255),
        TriggerMode::HipFire => hip_fire_stage(level, light, cfg, st),
    };
    st.last_pressed = soft_pull || full_pull;
    TriggerOutput { analog, soft_pull, full_pull }
}

/// Whether any stage fires on a report.
pub open spec fn fires(cfg: TriggerSettings, st: TriggerState, level: u8, dt_us: i64) -> bool {
    staged(cfg, st, level, dt_us).1 || staged(cfg, st, level, dt_us).2
}

/// Settles a report and returns the processed pull and whether any stage fires.
pub fn process_trigger(
    level: u8,
    analog: Scalar,
    cfg: &TriggerSettings,
    st: &mut TriggerState,
    dt_us: i64,
) -> (r: (Scalar, bool))
    ensures
        r.0 == analog,
        r.1 == fires(*cfg, *old(st), level, dt_us),
        *final(st) == staged(*cfg, *old(st), level, dt_us).0,
{
    let out: TriggerOutput = process_trigger_staged(level, analog, cfg, st, dt_us);
    (out.analog, out.soft_pull || out.full_pull)
}

/// With one stage the light and the full pull agree; with waiting they exclude each other; with
/// two stages a full pull is also a light one unless no threshold is set. The state remembers
/// whether anything fired.
pub proof fn stages_relate(cfg: TriggerSettings, st: TriggerState, level: u8, dt_us: i64)
    ensures
        ({
            let (next, soft, full) = staged(cfg, st, level, dt_us);
            &&& next.last_pressed == (soft || full)
            &&& cfg.mode == TriggerMode::Normal || cfg.mode == TriggerMode::Unknown ==> soft == full
            &&& cfg.mode == TriggerMode::HipFire ==> !(soft && full)
            &&& cfg.mode == TriggerMode::TwoStage && cfg.light_threshold() > 0 && full ==> soft
        }),
{
}

/// With one stage a pull fires exactly from the larger of the button threshold and the dead zone
/// on, and never where both are 0. A mode that is not known works the same.
pub proof fn one_stage_fires_from_its_threshold(
    cfg: TriggerSettings,
    st: TriggerState,
    level: u8,
    dt_us: i64,
)
    requires
        cfg.mode == TriggerMode::Normal || cfg.mode == TriggerMode::Unknown,
    ensures
        ({
            let (next, soft, full) = staged(cfg, st, level, dt_us);
            let fires = level >= cfg.button_threshold && level >= cfg.dead_zone && (
            cfg.button_threshold != 0 || cfg.dead_zone != 0);
            &&& soft == fires
            &&& full == fires
            &&& next.last_pressed == fires
            &&& next.hip_active == st.hip_active && next.hip_start_us == st.hip_start_us
            &&& st.elapsed_us + dt_us <= i64::MAX && dt_us >= 0 ==> next.elapsed_us == st.elapsed_us
                + dt_us
        }),
{
}

/// With two stages the full one fires at a complete pull only. The light one fires exactly from
/// the larger of its own threshold and the dead zone on; where it has no threshold of its own, it
/// fires at the same pulls as the only stage of the one-stage mode.
pub proof fn two_stages_fire_from_their_thresholds(
    cfg: TriggerSettings,
    st: TriggerState,
    level: u8,
    dt_us: i64,
)
    requires
        cfg.mode == TriggerMode::TwoStage,
    ensures
        ({
            let (next, soft, full) = staged(cfg, st, level, dt_us);
            let single = TriggerSettings { mode: TriggerMode::Normal, ..cfg };
            &&& full == (level == 255)
            &&& cfg.soft_threshold == 0 ==> soft == staged(single, st, level, dt_us).1
            &&& cfg.soft_threshold == 0 ==> soft == (level >= cfg.button_threshold && level
                >= cfg.dead_zone && (cfg.button_threshold != 0 || cfg.dead_zone != 0))
            &&& cfg.soft_threshold != 0 ==> soft == (level >= cfg.soft_threshold && level
                >= cfg.dead_zone)
            &&& next.last_pressed == (soft || full)
            &&& next.hip_active == st.hip_active && next.hip_start_us == st.hip_start_us
            &&& st.elapsed_us + dt_us <= i64::MAX && dt_us >= 0 ==> next.elapsed_us == st.elapsed_us
                + dt_us
        }),
{
}

/// In the waiting mode the wait runs exactly while the light stage of the two-stage mode would
/// fire: it starts with the first such pull, keeps its start, and ends with the first pull that is
/// too light. A complete pull fires the full stage at once; a lighter one fires the light stage
/// once the wait is over; and too light a pull fires nothing.
pub proof fn waiting_follows_the_light_stage(
    cfg: TriggerSettings,
    st: TriggerState,
    level: u8,
    dt_us: i64,
)
    requires
        cfg.mode == TriggerMode::HipFire,
        dt_us >= 0,
        st.elapsed_us >= 0,
        0 <= st.hip_start_us <= st.elapsed_us,
        st.elapsed_us + dt_us <= i64::MAX,
    ensures
        ({
            let (next, soft, full) = staged(cfg, st, level, dt_us);
            let pair = TriggerSettings { mode: TriggerMode::TwoStage, ..cfg };
            let pulled = staged(pair, st, level, dt_us).1;
            let now = st.elapsed_us + dt_us;
            &&& next.elapsed_us == now
            &&& next.last_pressed == (soft || full)
            &&& next.hip_active == pulled
            &&& pulled && st.hip_active ==> next.hip_start_us == st.hip_start_us
            &&& pulled && !st.hip_active ==> next.hip_start_us == now
            &&& full == (pulled && level == 255)
            &&& soft == (pulled && level != 255 && now - next.hip_start_us >= cfg.hip_fire_us)
        }),
{
}

/// A harder pull fires whatever a lighter one fires, with one stage and with two.
pub proof fn harder_pulls_fire_more(
    cfg: TriggerSettings,
    st: TriggerState,
    a: u8,
    b: u8,
    dt_us: i64,
)
    requires
        cfg.mode != TriggerMode::HipFire,
        a <= b,
    ensures
        staged(cfg, st, a, dt_us).1 ==> staged(cfg, st, b, dt_us).1,
        staged(cfg, st, a, dt_us).2 ==> staged(cfg, st, b, dt_us).2,
{
}

/// The settings in force lie in their ranges and are as set where they were; no threshold stands
/// for 100 units, and everything else is as set.
pub proof fn trigger_settings_in_force(s: TriggerSettings)
    ensures
        ({
            let c = s.clamped_spec();
            let r = s.resolved_spec();
            &&& 0 <= c.anti_dead_zone <= 100
            &&& 0 <= s.anti_dead_zone <= 100 ==> c.anti_dead_zone == s.anti_dead_zone
            &&& s.anti_dead_zone < 0 ==> c.anti_dead_zone == 0
            &&& s.anti_dead_zone > 100 ==> c.anti_dead_zone == 100
            &&& 1 <= c.max_zone <= 100
            &&& 1 <= s.max_zone <= 100 ==> c.max_zone == s.max_zone
            &&& s.max_zone < 1 ==> c.max_zone == 1
            &&& s.max_zone > 100 ==> c.max_zone == 100
            &&& 1_000 <= c.hip_fire_us <= 5_000_000
            &&& 1_000 <= s.hip_fire_us <= 5_000_000 ==> c.hip_fire_us == s.hip_fire_us
            &&& s.hip_fire_us < 1_000 ==> c.hip_fire_us == 1_000
            &&& s.hip_fire_us > 5_000_000 ==> c.hip_fire_us == 5_000_000
            &&& c.dead_zone == s.dead_zone && c.sensitivity == s.sensitivity && c.curve == s.curve
            &&& c.mode == s.mode && c.soft_threshold == s.soft_threshold
            &&& c.button_threshold == s.button_threshold
            &&& s.button_threshold != 0 ==> r == c
            &&& s.button_threshold == 0 ==> r == (TriggerSettings { button_threshold: 100, ..c })
            &&& s.max_output.bits <= 0x4059_0000_0000_0000 ==> c.max_output == s.max_output
            &&& 0x4059_0000_0000_0000 < s.max_output.bits <= 0x7FF0_0000_0000_0000
                ==> c.max_output.bits == 0x4059_0000_0000_0000
            &&& 0x8000_0000_0000_0000 < s.max_output.bits <= 0xFFF0_0000_0000_0000
                ==> c.max_output.bits == 0
        }),
{
}

/// A curve keeps its name and number from trigger to stick: the numbers run from 0 for the
/// straight curve to 8.
pub proof fn curves_keep_their_numbers(c: TriggerCurve)
    ensures
        c is Linear <==> c.stick_curve() is Linear,
        c is EnhancedPrecision <==> c.stick_curve() is EnhancedPrecision,
        c is Quadratic <==> c.stick_curve() is Quadratic,
        c is Cubic <==> c.stick_curve() is Cubic,
        c is EaseoutQuad <==> c.stick_curve() is EaseoutQuad,
        c is EaseoutCubic <==> c.stick_curve() is EaseoutCubic,
        c is Bezier <==> c.stick_curve() is Bezier,
        c is ApexClassicInverse <==> c.stick_curve() is ApexClassicInverse,
        c is ApexClassicInverseAxial <==> c.stick_curve() is ApexClassicInverseAxial,
        OutputCurve::Linear.mode_spec() == 0,
        OutputCurve::EnhancedPrecision.mode_spec() == 1,
        OutputCurve::Quadratic.mode_spec() == 2,
        OutputCurve::Cubic.mode_spec() == 3,
        OutputCurve::EaseoutQuad.mode_spec() == 4,
        OutputCurve::EaseoutCubic.mode_spec() == 5,
        OutputCurve::Bezier.mode_spec() == 6,
        OutputCurve::ApexClassicInverse.mode_spec() == 7,
        OutputCurve::ApexClassicInverseAxial.mode_spec() == 8,
{
}

/// A step of the numeric chain is left out exactly where its settings change nothing: the whole
/// range without a dead zone or a least output, full output, a factor of one, a straight curve.
pub proof fn chain_leaves_out_what_changes_nothing(s: TriggerSettings)
    ensures
        ({
            let c = s.chain_spec();
            let whole = s.max_output.bits == 0x4059_0000_0000_0000;
            &&& c.capped == !whole
            &&& !c.rescaled <==> s.dead_zone == 0 && s.anti_dead_zone <= 0 && s.max_zone == 100
                && whole
            &&& c.multiplied == (s.sensitivity.bits != 0x3FF0_0000_0000_0000)
            &&& !c.curved <==> s.curve is Linear
        }),
{
}

/// While a light pull is held short of a full one, the wait keeps its start: the light stage
/// fires on a report exactly when the time since that start has reached the wait, whatever
/// reports came between.
pub proof fn light_pull_fires_after_the_wait(
    cfg: TriggerSettings,
    st: TriggerState,
    a: u8,
    da: i64,
    b: u8,
    db: i64,
)
    requires
        cfg.mode == TriggerMode::HipFire,
        st.elapsed_us >= 0,
        0 <= da,
        0 <= db,
        st.elapsed_us + da + db <= i64::MAX,
        !st.hip_active,
        reaches(a, cfg.light_threshold()),
        reaches(b, cfg.light_threshold()),
        a < 255,
        b < 255,
    ensures
        ({
            let (s1, soft1, full1) = staged(cfg, st, a, da);
            let (s2, soft2, full2) = staged(cfg, s1, b, db);
            &&& !full1 && !full2
            &&& soft1 == (cfg.hip_fire_us == 0)
            &&& soft2 == (db >= cfg.hip_fire_us)
            &&& s2.hip_start_us == st.elapsed_us + da
        }),
{
}

/// A trigger that nobody has configured has no dead zone and its full range, one stage from 100 on,
/// a straight curve, and a waiting time of a tenth of a second in reserve; its chain does nothing.
pub proof fn untouched_triggers_are_plain()
    ensures
        ({
            let t = TriggerSettings::default_spec();
            &&& t.dead_zone == 0 && t.anti_dead_zone == 0 && t.max_zone == 100
            &&& t.max_output.bits == 0x4059_0000_0000_0000
            &&& t.sensitivity.bits == 0x3FF0_0000_0000_0000 && t.curve is Linear
            &&& t.button_threshold == 100 && t.mode is Normal && t.soft_threshold == 0
            &&& t.hip_fire_us == 100_000
            &&& t.clamped_spec() == t
        }),
{
}

/// A trigger fires when one of its stages does, which it then remembers; a complete pull fires with
/// any threshold, and no pull at all never does.
pub proof fn any_stage_fires_the_trigger(
    cfg: TriggerSettings,
    st: TriggerState,
    level: u8,
    dt_us: i64,
)
    ensures
        staged(cfg, st, level, dt_us).1 ==> fires(cfg, st, level, dt_us),
        staged(cfg, st, level, dt_us).2 ==> fires(cfg, st, level, dt_us),
        fires(cfg, st, level, dt_us) == staged(cfg, st, level, dt_us).0.last_pressed,
        !fires(cfg, st, 0, dt_us),
        cfg.button_threshold > 0 ==> fires(cfg, st, 255, dt_us),
{
}

} // verus!
