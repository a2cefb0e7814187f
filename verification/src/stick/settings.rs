//! The settings of one stick, its resident state, and the anti-snapback history.

use vstd::prelude::*;

use crate::ints::{clamp_i32, clamp_int, is_held};
use crate::rc::{RcConfig, RcStickState};
use crate::scalar::{
    at_least_settles, clamp_lands_in_range, is_held_between, is_lifted_to, Scalar, ONE_BITS,
};

verus! {

/// Most samples that the anti-snapback history holds.
pub const SNAP_CAP: usize = 256;

/// Pattern of `100.0`.
pub const HUNDRED_BITS: u64 = 0x4059_0000_0000_0000;

/// Pattern of `135.0`, the default anti-snapback distance.
pub const SNAP_DELTA_BITS: u64 = 0x4060_E000_0000_0000;

/// Pattern of `5.0`, the default roundness.
pub const ROUNDNESS_BITS: u64 = 0x4014_0000_0000_0000;

/// Pattern of `360.0`, the default flick calibration.
pub const FLICK_CALIBRATION_BITS: u64 = 0x4076_8000_0000_0000;

/// Pattern of `0.7`, the default flick smoothing slope.
pub const FLICK_BETA_BITS: u64 = 0x3FE6_6666_6666_6666;

/// Which dead-zone model a stick uses.
#[derive(Clone, Copy, Debug, PartialEq, Eq, Structural)]
pub enum DeadZoneType {
    /// One circular dead zone for both axes.
    Radial,
    /// One dead zone per axis.
    Axial,
}

impl Default for DeadZoneType {
    fn default() -> (r: DeadZoneType)
        ensures
            r == DeadZoneType::Radial,
    {
        DeadZoneType::Radial
    }
}

/// The shape of a stick's output.
#[derive(Clone, Copy, Debug, PartialEq, Eq, Structural)]
pub enum OutputCurve {
    Linear,
    EnhancedPrecision,
    Quadratic,
    Cubic,
    EaseoutQuad,
    EaseoutCubic,
    Bezier,
    /// Square root along the stick's direction.
    ApexClassicInverse,
    /// Square root on each axis.
    ApexClassicInverseAxial,
}

impl OutputCurve {
    /// The persisted number of a curve.
    pub open spec fn mode_spec(self) -> u8 {
        match self {
            OutputCurve::Linear => 0,
            OutputCurve::EnhancedPrecision => 1,
            OutputCurve::Quadratic => 2,
            OutputCurve::Cubic => 3,
            OutputCurve::EaseoutQuad => 4,
            OutputCurve::EaseoutCubic => 5,
            OutputCurve::Bezier => 6,
            OutputCurve::ApexClassicInverse => 7,
            OutputCurve::ApexClassicInverseAxial => 8,
        }
    }

    /// The persisted number of this curve.
    pub fn mode(self) -> (r: u8)
        ensures
            r == self.mode_spec(),
    {
        match self {
            OutputCurve::Linear => 0,
            OutputCurve::EnhancedPrecision => 1,
            OutputCurve::Quadratic => 2,
            OutputCurve::Cubic => 3,
            OutputCurve::EaseoutQuad => 4,
            OutputCurve::EaseoutCubic => 5,
            OutputCurve::Bezier => 6,
            OutputCurve::ApexClassicInverse => 7,
            OutputCurve::ApexClassicInverseAxial => 8,
        }
    }
}

impl Default for OutputCurve {
    fn default() -> (r: OutputCurve)
        ensures
            r == OutputCurve::Linear,
    {
        OutputCurve::Linear
    }
}

/// The dead zone of one axis.
#[derive(Clone, Copy, Debug, PartialEq, Eq, Structural)]
pub struct AxisDeadZone {
    /// Dead zone in stick units, 0 to 127.
    pub dead_zone: i32,
    /// Least output in percent, 0 to 100.
    pub anti_dead_zone: i32,
    /// Input range that reaches full output, in percent, 1 to 100.
    pub max_zone: i32,
    /// Largest output in percent, 0 to 100.
    pub max_output: Scalar,
}

impl AxisDeadZone {
    /// No dead zone and full range.
    pub open spec fn default_spec() -> AxisDeadZone {
        AxisDeadZone {
            dead_zone: 0,
            anti_dead_zone: 0,
            max_zone: 100,
            max_output: Scalar { bits: HUNDRED_BITS },
        }
    }

    /// The settings with every field in its range.
    pub open spec fn clamped_spec(self) -> AxisDeadZone {
        AxisDeadZone {
            dead_zone: clamp_int(self.dead_zone as int, 0, 127) as i32,
            anti_dead_zone: clamp_int(self.anti_dead_zone as int, 0, 100) as i32,
            max_zone: clamp_int(self.max_zone as int, 1, 100) as i32,
            max_output: self.max_output.clamp_spec(
                Scalar { bits: 0 },
                Scalar { bits: HUNDRED_BITS },
            ),
        }
    }

    /// A copy with every field in its range.
    pub fn clamped(&self) -> (r: AxisDeadZone)
        ensures
            r == self.clamped_spec(),
    {
        AxisDeadZone {
            dead_zone: clamp_i32(self.dead_zone, 0, 127),
            anti_dead_zone: clamp_i32(self.anti_dead_zone, 0, 100),
            max_zone: clamp_i32(self.max_zone, 1, 100),
            max_output: self.max_output.clamp(Scalar { bits: 0 }, Scalar { bits: HUNDRED_BITS }),
        }
    }
}

impl Default for AxisDeadZone {
    fn default() -> (r: AxisDeadZone)
        ensures
            r == AxisDeadZone::default_spec(),
    {
        AxisDeadZone {
            dead_zone: 0,
            anti_dead_zone: 0,
            max_zone: 100,
            max_output: Scalar { bits: HUNDRED_BITS },
        }
    }
}

/// The dead-zone settings of one stick.
#[derive(Clone, Copy, Debug, PartialEq, Eq, Structural)]
pub struct StickDeadZone {
    /// Which model applies.
    pub dead_zone_type: DeadZoneType,
    /// Radial dead zone in stick units, 0 to 127.
    pub dead_zone: i32,
    /// Radial least output in percent, 0 to 100.
    pub anti_dead_zone: i32,
    /// Radial input range that reaches full output, in percent, 1 to 100.
    pub max_zone: i32,
    /// Radial largest output in percent, 0 to 100.
    pub max_output: Scalar,
    /// Whether the largest output is enforced even at 100 percent.
    pub max_output_force: bool,
    /// Motion that the stick must exceed to be seen; 0 is off.
    pub fuzz: i32,
    /// Vertical scale in percent.
    pub vertical_scale: Scalar,
    /// Axial settings of X.
    pub x_axis: AxisDeadZone,
    /// Axial settings of Y.
    pub y_axis: AxisDeadZone,
}

impl StickDeadZone {
    /// No dead zone and full range.
    pub open spec fn default_spec() -> StickDeadZone {
        StickDeadZone {
            dead_zone_type: DeadZoneType::Radial,
            dead_zone: 0,
            anti_dead_zone: 0,
            max_zone: 100,
            max_output: Scalar { bits: HUNDRED_BITS },
            max_output_force: false,
            fuzz: 0,
            vertical_scale: Scalar { bits: HUNDRED_BITS },
            x_axis: AxisDeadZone::default_spec(),
            y_axis: AxisDeadZone::default_spec(),
        }
    }

    /// The settings with every field in its range.
    pub open spec fn clamped_spec(self) -> StickDeadZone {
        let zero = Scalar { bits: 0 };
        let hundred = Scalar { bits: HUNDRED_BITS };
        StickDeadZone {
            dead_zone: clamp_int(self.dead_zone as int, 0, 127) as i32,
            anti_dead_zone: clamp_int(self.anti_dead_zone as int, 0, 100) as i32,
            max_zone: clamp_int(self.max_zone as int, 1, 100) as i32,
            max_output: self.max_output.clamp_spec(zero, hundred),
            fuzz: if self.fuzz < 0 {
                0
            } else {
                self.fuzz
            },
            vertical_scale: self.vertical_scale.clamp_spec(zero, hundred),
            x_axis: self.x_axis.clamped_spec(),
            y_axis: self.y_axis.clamped_spec(),
            ..self
        }
    }

    /// A copy with every field in its range.
    pub fn clamped(&self) -> (r: StickDeadZone)
        ensures
            r == self.clamped_spec(),
    {
        let zero: Scalar = Scalar { bits: 0 };
        let hundred: Scalar = Scalar { bits: HUNDRED_BITS };
        StickDeadZone {
            dead_zone_type: self.dead_zone_type,
            dead_zone: clamp_i32(self.dead_zone, 0, 127),
            anti_dead_zone: clamp_i32(self.anti_dead_zone, 0, 100),
            max_zone: clamp_i32(self.max_zone, 1, 100),
            max_output: self.max_output.clamp(zero, hundred),
            max_output_force: self.max_output_force,
            fuzz: if self.fuzz < 0 {
                0
            } else {
                self.fuzz
            },
            vertical_scale: self.vertical_scale.clamp(zero, hundred),
            x_axis: self.x_axis.clamped(),
            y_axis: self.y_axis.clamped(),
        }
    }
}

impl Default for StickDeadZone {
    fn default() -> (r: StickDeadZone)
        ensures
            r == StickDeadZone::default_spec(),
    {
        StickDeadZone {
            dead_zone_type: DeadZoneType::Radial,
            dead_zone: 0,
            anti_dead_zone: 0,
            max_zone: 100,
            max_output: Scalar { bits: HUNDRED_BITS },
            max_output_force: false,
            fuzz: 0,
            vertical_scale: Scalar { bits: HUNDRED_BITS },
            x_axis: AxisDeadZone::default(),
            y_axis: AxisDeadZone::default(),
        }
    }
}

/// Rotation of a stick.
#[derive(Clone, Copy, Debug, PartialEq, Eq, Structural)]
pub struct RotationSettings {
    /// Angle in radians; zero is off.
    pub angle_rad: Scalar,
}

impl Default for RotationSettings {
    fn default() -> (r: RotationSettings)
        ensures
            r.angle_rad.bits == 0,
    {
        RotationSettings { angle_rad: Scalar { bits: 0 } }
    }
}

/// Anti-snapback: a stick that flies back across its centre is held at rest.
#[derive(Clone, Copy, Debug, PartialEq, Eq, Structural)]
pub struct AntiSnapback {
    pub enabled: bool,
    /// Distance in stick units that counts as flying back.
    pub delta: Scalar,
    /// How far back to look, in milliseconds.
    pub timeout_ms: i64,
}

impl AntiSnapback {
    /// Off, with the usual distance and window.
    pub open spec fn default_spec() -> AntiSnapback {
        AntiSnapback { enabled: false, delta: Scalar { bits: SNAP_DELTA_BITS }, timeout_ms: 50 }
    }
}

impl Default for AntiSnapback {
    fn default() -> (r: AntiSnapback)
        ensures
            r == AntiSnapback::default_spec(),
    {
        AntiSnapback { enabled: false, delta: Scalar { bits: SNAP_DELTA_BITS }, timeout_ms: 50 }
    }
}

/// Circle-to-square stretching.
#[derive(Clone, Copy, Debug, PartialEq, Eq, Structural)]
pub struct SquareStick {
    pub enabled: bool,
    /// Exponent of the stretching, at least one.
    pub roundness: Scalar,
}

impl SquareStick {
    /// Off, with the usual roundness.
    pub open spec fn default_spec() -> SquareStick {
        SquareStick { enabled: false, roundness: Scalar { bits: ROUNDNESS_BITS } }
    }
}

impl Default for SquareStick {
    fn default() -> (r: SquareStick)
        ensures
            r == SquareStick::default_spec(),
    {
        SquareStick { enabled: false, roundness: Scalar { bits: ROUNDNESS_BITS } }
    }
}

/// Flick stick: the direction of a pushed stick turns the view.
#[derive(Clone, Copy, Debug, PartialEq, Eq, Structural)]
pub struct FlickStick {
    pub enabled: bool,
    /// Degrees per full flick.
    pub real_world_calibration: Scalar,
    /// Smoothing cutoff.
    pub min_cutoff: Scalar,
    /// Smoothing slope.
    pub beta: Scalar,
}

impl FlickStick {
    /// Off, with the usual tuning.
    pub open spec fn default_spec() -> FlickStick {
        FlickStick {
            enabled: false,
            real_world_calibration: Scalar { bits: FLICK_CALIBRATION_BITS },
            min_cutoff: Scalar { bits: ONE_BITS },
            beta: Scalar { bits: FLICK_BETA_BITS },
        }
    }
}

impl Default for FlickStick {
    fn default() -> (r: FlickStick)
        ensures
            r == FlickStick::default_spec(),
    {
        FlickStick {
            enabled: false,
            real_world_calibration: Scalar { bits: FLICK_CALIBRATION_BITS },
            min_cutoff: Scalar { bits: ONE_BITS },
            beta: Scalar { bits: FLICK_BETA_BITS },
        }
    }
}

/// All settings of one stick.
#[derive(Clone, Copy, Debug, PartialEq, Eq, Structural)]
pub struct StickSettings {
    /// RC filter settings.
    pub rc: RcConfig,
    /// Whether the RC filter is selected for this stick.
    pub rc_mode_on: bool,
    pub rotation: RotationSettings,
    pub anti_snapback: AntiSnapback,
    pub dead_zone: StickDeadZone,
    /// Output multiplier; only the radial dead-zone model applies it.
    pub sensitivity: Scalar,
    pub square: SquareStick,
    pub curve: OutputCurve,
    pub flick: FlickStick,
}

impl StickSettings {
    /// Everything off: the stick passes through.
    pub open spec fn default_spec() -> StickSettings {
        StickSettings {
            rc: RcConfig::default_spec(),
            rc_mode_on: false,
            rotation: RotationSettings { angle_rad: Scalar { bits: 0 } },
            anti_snapback: AntiSnapback::default_spec(),
            dead_zone: StickDeadZone::default_spec(),
            sensitivity: Scalar { bits: ONE_BITS },
            square: SquareStick::default_spec(),
            curve: OutputCurve::Linear,
            flick: FlickStick::default_spec(),
        }
    }

    /// The settings with every field in its range; the multiplier is free.
    pub open spec fn clamped_spec(self) -> StickSettings {
        let zero = Scalar { bits: 0 };
        StickSettings {
            rc: self.rc.clamped_spec(),
            dead_zone: self.dead_zone.clamped_spec(),
            anti_snapback: AntiSnapback {
                delta: self.anti_snapback.delta.at_least_spec(zero),
                timeout_ms: if self.anti_snapback.timeout_ms < 0 {
                    0
                } else {
                    self.anti_snapback.timeout_ms
                },
                ..self.anti_snapback
            },
            square: SquareStick {
                roundness: self.square.roundness.at_least_spec(Scalar { bits: ONE_BITS }),
                ..self.square
            },
            flick: FlickStick {
                real_world_calibration: self.flick.real_world_calibration.at_least_spec(zero),
                min_cutoff: self.flick.min_cutoff.at_least_spec(zero),
                ..self.flick
            },
            ..self
        }
    }

    /// A copy with every field in its range.
    pub fn clamped(&self) -> (r: StickSettings)
        ensures
            r == self.clamped_spec(),
    {
        let zero: Scalar = Scalar { bits: 0 };
        let mut out: StickSettings = *self;
        out.rc = self.rc.clamped();
        out.dead_zone = self.dead_zone.clamped();
        out.anti_snapback.delta = self.anti_snapback.delta.at_least(zero);
        if out.anti_snapback.timeout_ms < 0 {
            out.anti_snapback.timeout_ms = 0;
        }
        out.square.roundness = self.square.roundness.at_least(Scalar { bits: ONE_BITS });
        out.flick.real_world_calibration = self.flick.real_world_calibration.at_least(zero);
        out.flick.min_cutoff = self.flick.min_cutoff.at_least(zero);
        out
    }
}

impl Default for StickSettings {
    fn default() -> (r: StickSettings)
        ensures
            r == StickSettings::default_spec(),
    {
        StickSettings {
            rc: RcConfig::default(),
            rc_mode_on: false,
            rotation: RotationSettings::default(),
            anti_snapback: AntiSnapback::default(),
            dead_zone: StickDeadZone::default(),
            sensitivity: Scalar { bits: ONE_BITS },
            square: SquareStick::default(),
            curve: OutputCurve::Linear,
            flick: FlickStick::default(),
        }
    }
}

/// Clamping an axis twice is clamping it once.
proof fn axis_clamp_settles(a: AxisDeadZone)
    ensures
        a.clamped_spec().clamped_spec() == a.clamped_spec(),
{
    clamp_lands_in_range(a.max_output, Scalar { bits: 0 }, Scalar { bits: HUNDRED_BITS });
}

/// Clamping a dead zone twice is clamping it once.
proof fn dead_zone_clamp_settles(d: StickDeadZone)
    ensures
        d.clamped_spec().clamped_spec() == d.clamped_spec(),
{
    clamp_lands_in_range(d.max_output, Scalar { bits: 0 }, Scalar { bits: HUNDRED_BITS });
    clamp_lands_in_range(d.vertical_scale, Scalar { bits: 0 }, Scalar { bits: HUNDRED_BITS });
    axis_clamp_settles(d.x_axis);
    axis_clamp_settles(d.y_axis);
}

/// Clamping twice is clamping once.
pub proof fn stick_clamp_settles(s: StickSettings)
    ensures
        s.clamped_spec().clamped_spec() == s.clamped_spec(),
{
    let c = s.clamped_spec();
    let cc = c.clamped_spec();
    crate::rc::rc_clamp_settles(s.rc);
    dead_zone_clamp_settles(s.dead_zone);
    assert(cc.rc == c.rc);
    assert(cc.dead_zone == c.dead_zone);
    assert(cc.anti_snapback == c.anti_snapback) by {
        at_least_settles(s.anti_snapback.delta, Scalar { bits: 0 });
    }
    assert(cc.square == c.square) by {
        at_least_settles(s.square.roundness, Scalar { bits: ONE_BITS });
    }
    assert(cc.flick == c.flick) by {
        at_least_settles(s.flick.real_world_calibration, Scalar { bits: 0 });
        at_least_settles(s.flick.min_cutoff, Scalar { bits: 0 });
    }
}

/// The clamped settings of one axis: a dead zone from 0 to 127, a least output from 0 to 100, a
/// range from 1 to 100 and a largest output from 0 to 100, each as set where it was in its range.
pub proof fn axis_settings_in_range(a: AxisDeadZone)
    ensures
        ({
            let c = a.clamped_spec();
            &&& is_held(a.dead_zone as int, c.dead_zone as int, 0, 127)
            &&& is_held(a.anti_dead_zone as int, c.anti_dead_zone as int, 0, 100)
            &&& is_held(a.max_zone as int, c.max_zone as int, 1, 100)
            &&& is_held_between(a.max_output, c.max_output, 0, 0x4059_0000_0000_0000)
        }),
{
}

/// The clamped settings of a dead zone: those of an axis, twice; the same ranges for the circle, a
/// fuzz from 0 on and a vertical scale from 0 to 100. The model and the enforced output are as set.
pub proof fn dead_zone_settings_in_range(d: StickDeadZone)
    ensures
        ({
            let c = d.clamped_spec();
            &&& is_held(d.dead_zone as int, c.dead_zone as int, 0, 127)
            &&& is_held(d.anti_dead_zone as int, c.anti_dead_zone as int, 0, 100)
            &&& is_held(d.max_zone as int, c.max_zone as int, 1, 100)
            &&& is_held_between(d.max_output, c.max_output, 0, 0x4059_0000_0000_0000)
            &&& is_held_between(d.vertical_scale, c.vertical_scale, 0, 0x4059_0000_0000_0000)
            &&& is_held(d.fuzz as int, c.fuzz as int, 0, i32::MAX as int)
            &&& c.dead_zone_type == d.dead_zone_type && c.max_output_force == d.max_output_force
            &&& c.x_axis == d.x_axis.clamped_spec() && c.y_axis == d.y_axis.clamped_spec()
        }),
{
}

/// The clamped settings of a stick: filter and dead zone in their ranges, the distances, the window
/// and the smoothing of flicks not below zero, the roundness not below one, and all the rest as
/// set.
pub proof fn stick_settings_in_range(s: StickSettings)
    ensures
        ({
            let c = s.clamped_spec();
            &&& c.rc == s.rc.clamped_spec() && c.dead_zone == s.dead_zone.clamped_spec()
            &&& is_lifted_to(s.anti_snapback.delta, c.anti_snapback.delta, 0)
            &&& is_held(
                s.anti_snapback.timeout_ms as int,
                c.anti_snapback.timeout_ms as int,
                0,
                i64::MAX as int,
            )
            &&& is_lifted_to(s.square.roundness, c.square.roundness, 0x3FF0_0000_0000_0000)
            &&& is_lifted_to(s.flick.real_world_calibration, c.flick.real_world_calibration, 0)
            &&& is_lifted_to(s.flick.min_cutoff, c.flick.min_cutoff, 0)
            &&& c.anti_snapback.enabled == s.anti_snapback.enabled
            &&& c.square.enabled == s.square.enabled && c.flick.enabled == s.flick.enabled
            &&& c.flick.beta == s.flick.beta && c.rc_mode_on == s.rc_mode_on
            &&& c.rotation == s.rotation && c.sensitivity == s.sensitivity && c.curve == s.curve
        }),
{
}

/// The settings that pass a stick through are in their ranges.
pub proof fn stick_default_is_clamped()
    ensures
        StickSettings::default_spec().clamped_spec() == StickSettings::default_spec(),
{
}

/// One remembered stick position and when it was seen.
#[derive(Clone, Copy, Debug, PartialEq, Eq, Structural)]
pub struct SnapSample {
    pub x: Scalar,
    pub y: Scalar,
    pub t_us: i64,
}

/// The recent stick positions, oldest first, at most [`SNAP_CAP`] of them.
#[derive(Clone, Copy, Debug)]
pub struct SnapbackRing {
    buf: [SnapSample; 256],
    head: usize,
    len: usize,
}

impl View for SnapbackRing {
    type V = Seq<SnapSample>;

    closed spec fn view(&self) -> Seq<SnapSample> {
        Seq::new(self.len as nat, |i: int| self.buf@[(self.head + i) % 256])
    }
}

/// The samples without those at the front that are older than `cutoff`.
pub open spec fn pruned(s: Seq<SnapSample>, cutoff: int) -> Seq<SnapSample>
    decreases s.len(),
{
    if s.len() > 0 && s[0].t_us < cutoff {
        pruned(s.drop_first(), cutoff)
    } else {
        s
    }
}

/// The samples after one more: a full history forgets its oldest one.
pub open spec fn remembered(s: Seq<SnapSample>, sample: SnapSample) -> Seq<SnapSample> {
    (if s.len() == SNAP_CAP {
        s.drop_first()
    } else {
        s
    }).push(sample)
}

/// The newest sample is the last one, and the samples before it are the newest of the others, in
/// their order; there are never more than 256.
pub proof fn history_keeps_the_newest(s: Seq<SnapSample>, sample: SnapSample)
    requires
        s.len() <= 256,
    ensures
        ({
            let r = remembered(s, sample);
            &&& r.last() == sample
            &&& r.len() == (if s.len() < 256 {
                s.len() + 1
            } else {
                256
            })
            &&& forall|i: int|
                1 < i <= r.len() ==> #[trigger] r[r.len() - i] == s[s.len() - (i - 1)]
        }),
{
}

impl SnapbackRing {
    #[verifier::type_invariant]
    spec fn within_buffer(self) -> bool {
        self.head < SNAP_CAP && self.len <= SNAP_CAP
    }

    /// Number of samples.
    pub fn len(&self) -> (r: usize)
        ensures
            r == self@.len(),
            r <= SNAP_CAP,
    {
        proof {
            use_type_invariant(self);
        }
        self.len
    }

    /// Whether there is no sample.
    pub fn is_empty(&self) -> (r: bool)
        ensures
            r == (self@.len() == 0),
    {
        self.len == 0
    }

    /// Forgets every sample.
    pub fn clear(&mut self)
        ensures
            final(self)@ == Seq::<SnapSample>::empty(),
    {
        proof {
            use_type_invariant(&*self);
        }
        self.len = 0;
        self.head = 0;
    }

    /// Forgets the samples at the front that are older than `cutoff_us`.
    pub fn prune_older_than(&mut self, cutoff_us: i64)
        ensures
            final(self)@ == pruned(old(self)@, cutoff_us as int),
    {
        proof {
            use_type_invariant(&*self);
        }
        while self.len > 0 && self.buf[self.head].t_us < cutoff_us
            invariant
                self.head < SNAP_CAP,
                self.len <= SNAP_CAP,
                pruned(self@, cutoff_us as int) == pruned(old(self)@, cutoff_us as int),
            decreases self.len,
        {
            let ghost before = self@;
            assert(before[0].t_us < cutoff_us);
            let next: usize = (self.head + 1) % SNAP_CAP;
            self.head = next;
            self.len = self.len - 1;
            assert(self@ =~= before.drop_first());
        }
        assert(self@.len() > 0 ==> self@[0] == self.buf@[self.head as int]);
    }

    /// Remembers a sample; a full history forgets its oldest one.
    pub fn push(&mut self, x: Scalar, y: Scalar, t_us: i64)
        ensures
            final(self)@ == remembered(old(self)@, SnapSample { x, y, t_us }),
    {
        proof {
            use_type_invariant(&*self);
        }
        let s: SnapSample = SnapSample { x, y, t_us };
        if self.len == SNAP_CAP {
            let at: usize = self.head;
            self.buf[at] = s;
            self.head = (at + 1) % SNAP_CAP;
            assert(self@ =~= old(self)@.drop_first().push(s));
        } else {
            let at: usize = (self.head + self.len) % SNAP_CAP;
            self.buf[at] = s;
            self.len = self.len + 1;
            assert(self@ =~= old(self)@.push(s));
        }
    }

    /// The sample with index `i`, counted from the oldest one.
    pub fn get(&self, i: usize) -> (r: Option<SnapSample>)
        ensures
            r == (if i < self@.len() {
                Some(self@[i as int])
            } else {
                None
            }),
    {
        proof {
            use_type_invariant(self);
        }
        if i < self.len {
            Some(self.buf[(self.head + i) % SNAP_CAP])
        } else {
            None
        }
    }
}

impl Default for SnapbackRing {
    fn default() -> (r: SnapbackRing)
        ensures
            r@ == Seq::<SnapSample>::empty(),
    {
        let s: SnapSample = SnapSample { x: Scalar { bits: 0 }, y: Scalar { bits: 0 }, t_us: 0 };
        let r: SnapbackRing = SnapbackRing { buf: [s; 256], head: 0, len: 0 };
        assert(r@ =~= Seq::<SnapSample>::empty());
        r
    }
}

/// Pruning keeps a tail of the history: nothing that remains was reordered or changed, the first
/// one that remains is young enough, and everything that was dropped was too old.
pub proof fn pruning_keeps_a_tail(s: Seq<SnapSample>, cutoff: int) -> (k: int)
    ensures
        0 <= k <= s.len(),
        pruned(s, cutoff) == s.skip(k),
        k < s.len() ==> s[k].t_us >= cutoff,
        forall|i: int| 0 <= i < k ==> (#[trigger] s[i]).t_us < cutoff,
    decreases s.len(),
{
    if s.len() > 0 && s[0].t_us < cutoff {
        let j = pruning_keeps_a_tail(s.drop_first(), cutoff);
        assert(s.drop_first().skip(j) =~= s.skip(j + 1));
        assert forall|i: int| 0 <= i < j + 1 implies (#[trigger] s[i]).t_us < cutoff by {
            if i > 0 {
                assert(s.drop_first()[i - 1] == s[i]);
            }
        }
        if j + 1 < s.len() {
            assert(s.drop_first()[j] == s[j + 1]);
        }
        j + 1
    } else {
        assert(s.skip(0) =~= s);
        0
    }
}

/// The resident state of one stick.
#[derive(Clone, Copy, Debug)]
pub struct StickState {
    /// RC filter state.
    pub rc: RcStickState,
    /// Whether the RC filter has been seeded.
    pub rc_primed: bool,
    /// Running time in microseconds.
    pub elapsed_us: i64,
    /// Last position that passed the fuzz filter, X then Y.
    pub fuzz_last: [Scalar; 2],
    /// Whether that position has been seeded.
    pub fuzz_primed: bool,
    /// Recent positions.
    pub snap_hist: SnapbackRing,
    /// Whether a flick is under way.
    pub flick_in_progress: bool,
    /// Last direction of the stick during a flick.
    pub flick_last_angle: Scalar,
    /// Turn of the last report.
    pub flick_delta: Scalar,
}

impl StickState {
    /// Whether every history is empty.
    pub open spec fn unprimed(self) -> bool {
        &&& self.rc.fresh() && self.rc.valid()
        &&& !self.rc_primed
        &&& !self.fuzz_primed
        &&& self.fuzz_last@ == seq![Scalar { bits: 0 }, Scalar { bits: 0 }]
        &&& self.snap_hist@ == Seq::<SnapSample>::empty()
        &&& !self.flick_in_progress
        &&& self.flick_last_angle.bits == 0
        &&& self.flick_delta.bits == 0
    }

    /// Empties every history so that the next report starts afresh; the running time goes on.
    pub fn prime_reset(&mut self)
        ensures
            final(self).unprimed(),
            final(self).elapsed_us == old(self).elapsed_us,
    {
        self.rc = RcStickState::default();
        self.rc_primed = false;
        self.fuzz_primed = false;
        self.fuzz_last = [Scalar { bits: 0 }, Scalar { bits: 0 }];
        self.snap_hist.clear();
        self.flick_in_progress = false;
        self.flick_last_angle = Scalar { bits: 0 };
        self.flick_delta = Scalar { bits: 0 };
    }
}

impl Default for StickState {
    fn default() -> (r: StickState)
        ensures
            r.unprimed(),
            r.elapsed_us == 0,
    {
        let z: Scalar = Scalar { bits: 0 };
        StickState {
            rc: RcStickState::default(),
            rc_primed: false,
            elapsed_us: 0,
            fuzz_last: [z, z],
            fuzz_primed: false,
            snap_hist: SnapbackRing::default(),
            flick_in_progress: false,
            flick_last_angle: z,
            flick_delta: z,
        }
    }
}

/// The curves are stored as 0 to 8 in the order in which they are listed, Linear first, and no two
/// share a number.
pub proof fn stick_curves_keep_their_numbers(a: OutputCurve, b: OutputCurve)
    ensures
        OutputCurve::Linear.mode_spec() == 0 && OutputCurve::EnhancedPrecision.mode_spec() == 1,
        OutputCurve::Quadratic.mode_spec() == 2 && OutputCurve::Cubic.mode_spec() == 3,
        OutputCurve::EaseoutQuad.mode_spec() == 4 && OutputCurve::EaseoutCubic.mode_spec() == 5,
        OutputCurve::Bezier.mode_spec() == 6 && OutputCurve::ApexClassicInverse.mode_spec() == 7,
        a.mode_spec() <= 8 && (a.mode_spec() == b.mode_spec() ==> a == b),
{
}

/// A stick that nobody has configured has no dead zone on any axis and its full range, is neither
/// turned nor stretched nor bent, and counts once; what is switched off has its usual tuning.
pub proof fn untouched_sticks_are_neutral()
    ensures
        ({
            let s = StickSettings::default_spec();
            let z = s.dead_zone;
            &&& !s.rc_mode_on && s.rotation.angle_rad.bits == 0
            &&& s.sensitivity.bits == 0x3FF0_0000_0000_0000 && s.curve is Linear
            &&& !s.anti_snapback.enabled && s.anti_snapback.timeout_ms == 50
            &&& s.anti_snapback.delta.bits == 0x4060_E000_0000_0000
            &&& !s.square.enabled && s.square.roundness.bits == 0x4014_0000_0000_0000
            &&& !s.flick.enabled && s.flick.real_world_calibration.bits == 0x4076_8000_0000_0000
            &&& s.flick.min_cutoff.bits == 0x3FF0_0000_0000_0000
            &&& s.flick.beta.bits == 0x3FE6_6666_6666_6666
            &&& z.dead_zone_type is Radial && z.dead_zone == 0 && z.anti_dead_zone == 0
            &&& z.max_zone == 100 && z.max_output.bits == 0x4059_0000_0000_0000
            &&& !z.max_output_force && z.fuzz == 0
            &&& z.vertical_scale.bits == 0x4059_0000_0000_0000
            &&& z.x_axis.dead_zone == 0 && z.x_axis.anti_dead_zone == 0 && z.x_axis.max_zone == 100
            &&& z.x_axis.max_output.bits == 0x4059_0000_0000_0000
            &&& z.y_axis == z.x_axis
            &&& s.clamped_spec() == s
        }),
{
}

/// A stick's memory that holds nothing: no history of the filter, of the fuzz or of the positions,
/// and no flick under way.
pub proof fn unprimed_memory_is_empty(st: StickState)
    requires
        st.unprimed(),
    ensures
        st.rc.fresh() && !st.rc_primed && !st.fuzz_primed,
        st.fuzz_last@[0].bits == 0 && st.fuzz_last@[1].bits == 0,
        st.snap_hist@.len() == 0,
        !st.flick_in_progress && st.flick_last_angle.bits == 0 && st.flick_delta.bits == 0,
{
}

} // verus!
