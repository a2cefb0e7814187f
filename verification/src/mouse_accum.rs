//! Sub-pixel carry for relative mouse motion.
//!
//! Motion is counted in hundredths of a pixel. Whole pixels are emitted, the rest is carried into
//! the next report as long as the direction stays the same. The speed model that turns sticks,
//! gyro or touch into motion is the caller's.

use vstd::prelude::*;

use crate::ints::{clamp_int, fits_i32, trunc_div};
use crate::scalar::{Scalar, ONE_BITS};

verus! {

/// Pattern of `0.012`, the usual start offset of stick motion.
pub const MOUSE_VELOCITY_OFFSET_BITS: u64 = 0x3F88_9374_BC6A_7EFA;

/// Pattern of `25.0`, the usual stick sensitivity.
pub const MOUSE_SENSITIVITY_BITS: u64 = 0x4039_0000_0000_0000;

/// Pattern of `10.0`, the usual gyro dead zone.
pub const GYRO_MOUSE_DEADZONE_BITS: u64 = 0x4024_0000_0000_0000;

/// Pattern of `0.2`, the usual start offset of gyro motion.
pub const GYRO_MOUSE_OFFSET_BITS: u64 = 0x3FC9_9999_9999_999A;

/// Pattern of `0.015`, the usual start offset of touch motion.
pub const TOUCH_MOUSE_OFFSET_BITS: u64 = 0x3F8E_B851_EB85_1EB8;

/// Pattern of the double just below `1.0`.
pub const BELOW_ONE_BITS: u64 = 0x3FEF_FFFF_FFFF_FFFF;

/// Tuning of motion from a stick.
#[derive(Clone, Copy, Debug, PartialEq, Eq, Structural)]
pub struct MouseAccumCfg {
    pub sensitivity: Scalar,
    pub vertical_scale: Scalar,
    pub velocity_offset: Scalar,
    pub deadzone: Scalar,
    pub min_threshold: Scalar,
    pub accelerate: bool,
    pub accel_power: Scalar,
    pub invert_x: bool,
    pub invert_y: bool,
}

impl MouseAccumCfg {
    /// The tuning in force where nothing else is configured.
    pub open spec fn default_spec() -> MouseAccumCfg {
        MouseAccumCfg {
            sensitivity: Scalar { bits: MOUSE_SENSITIVITY_BITS },
            vertical_scale: Scalar { bits: ONE_BITS },
            velocity_offset: Scalar { bits: MOUSE_VELOCITY_OFFSET_BITS },
            deadzone: Scalar { bits: 0 },
            min_threshold: Scalar { bits: ONE_BITS },
            accelerate: false,
            accel_power: Scalar { bits: ONE_BITS },
            invert_x: false,
            invert_y: false,
        }
    }
}

impl Default for MouseAccumCfg {
    fn default() -> (r: MouseAccumCfg)
        ensures
            r == MouseAccumCfg::default_spec(),
    {
        MouseAccumCfg {
            sensitivity: Scalar { bits: MOUSE_SENSITIVITY_BITS },
            vertical_scale: Scalar { bits: ONE_BITS },
            velocity_offset: Scalar { bits: MOUSE_VELOCITY_OFFSET_BITS },
            deadzone: Scalar { bits: 0 },
            min_threshold: Scalar { bits: ONE_BITS },
            accelerate: false,
            accel_power: Scalar { bits: ONE_BITS },
            invert_x: false,
            invert_y: false,
        }
    }
}

/// Tuning of motion from the gyro.
#[derive(Clone, Copy, Debug, PartialEq, Eq, Structural)]
pub struct GyroAccumCfg {
    pub sensitivity: Scalar,
    pub vertical_scale: Scalar,
    pub velocity_offset: Scalar,
    pub deadzone: Scalar,
    pub min_threshold: Scalar,
    pub jitter_comp: bool,
    pub invert_x: bool,
    pub invert_y: bool,
}

/// Tuning of motion from the touchpad.
#[derive(Clone, Copy, Debug, PartialEq, Eq, Structural)]
pub struct TouchAccumCfg {
    pub sensitivity: Scalar,
    pub velocity_offset: Scalar,
    pub min_threshold: Scalar,
    pub jitter_comp: bool,
    pub invert_x: bool,
    pub invert_y: bool,
}

impl TouchAccumCfg {
    /// The tuning in force where nothing else is configured.
    pub open spec fn default_spec() -> TouchAccumCfg {
        TouchAccumCfg {
            sensitivity: Scalar { bits: ONE_BITS },
            velocity_offset: Scalar { bits: TOUCH_MOUSE_OFFSET_BITS },
            min_threshold: Scalar { bits: ONE_BITS },
            jitter_comp: true,
            invert_x: false,
            invert_y: false,
        }
    }
}

impl Default for TouchAccumCfg {
    fn default() -> (r: TouchAccumCfg)
        ensures
            r == TouchAccumCfg::default_spec(),
    {
        TouchAccumCfg {
            sensitivity: Scalar { bits: ONE_BITS },
            velocity_offset: Scalar { bits: TOUCH_MOUSE_OFFSET_BITS },
            min_threshold: Scalar { bits: ONE_BITS },
            jitter_comp: true,
            invert_x: false,
            invert_y: false,
        }
    }
}

/// Whether a threshold of least motion is one, or the number next below.
pub open spec fn stands_for_none(min_threshold: Scalar) -> bool {
    min_threshold.bits == ONE_BITS || min_threshold.bits == BELOW_ONE_BITS
}

/// Whether a threshold of least motion is one (to the last digit or one short of it), which
/// stands for "no threshold".
pub fn carries_always(min_threshold: Scalar) -> (r: bool)
    ensures
        r == stands_for_none(min_threshold),
{
    min_threshold.bits == ONE_BITS || min_threshold.bits == BELOW_ONE_BITS
}

/// The motion of one axis on one report: its direction, and its length in whole hundredths of a
/// pixel. A short motion has a direction but no whole hundredth.
#[derive(Clone, Copy, Debug, PartialEq, Eq, Structural)]
pub struct AxisMotion {
    /// Length with its sign, truncated towards zero.
    pub hundredths: i64,
    /// -1, 0 or 1.
    pub sign: i8,
}

impl AxisMotion {
    /// Whether length and direction agree.
    pub open spec fn valid(self) -> bool {
        &&& -1 <= self.sign <= 1
        &&& self.hundredths > 0 ==> self.sign == 1
        &&& self.hundredths < 0 ==> self.sign == -1
    }
}

/// The motion of both axes on one report.
#[derive(Clone, Copy, Debug, PartialEq, Eq, Structural)]
pub struct MouseMotion {
    pub x: AxisMotion,
    pub y: AxisMotion,
}

/// How carried motion becomes pixels.
#[derive(Clone, Copy, Debug, PartialEq, Eq, Structural)]
pub struct CarryCfg {
    /// Square of the least motion that is emitted, in hundredths squared; `None` emits every
    /// whole pixel.
    pub least_sq: Option<u64>,
    pub invert_x: bool,
    pub invert_y: bool,
}

/// The motion that a report adds up to, as far as it can be counted: the remainder counts only
/// while it points the same way.
pub open spec fn carried(rem: int, m: AxisMotion) -> int {
    if (m.sign > 0 && rem > 0) || (m.sign < 0 && rem < 0) {
        clamp_int(m.hundredths + rem, i64::MIN as int, i64::MAX as int)
    } else {
        m.hundredths as int
    }
}

/// Whether a motion is too short to be emitted and waits whole.
pub open spec fn deferred(cx: int, cy: int, cfg: CarryCfg) -> bool {
    cfg.least_sq matches Some(least) && cx * cx + cy * cy < least
}

/// The whole pixels of a motion, as many as one report can send, or none where it waits.
pub open spec fn pixels(c: int, waits: bool) -> int {
    if waits {
        0
    } else {
        clamp_int(trunc_div(c, 100), i32::MIN as int, i32::MAX as int)
    }
}

/// Pixels as they are sent: turned over where the axis is inverted.
pub open spec fn sent(px: int, invert: bool) -> int {
    if invert {
        clamp_int(-px, i32::MIN as int, i32::MAX as int)
    } else {
        px
    }
}

/// The motion that an axis adds up to.
fn carry(rem: i64, m: AxisMotion) -> (r: i64)
    ensures
        r == carried(rem as int, m),
{
    if (m.sign > 0 && rem > 0) || (m.sign < 0 && rem < 0) {
        let sum: i128 = m.hundredths as i128 + rem as i128;
        if sum < i64::MIN as i128 {
            i64::MIN
        } else if sum > i64::MAX as i128 {
            i64::MAX
        } else {
            sum as i64
        }
    } else {
        m.hundredths
    }
}

/// The whole pixels of a motion that does not wait.
fn whole_pixels(c: i64) -> (r: i32)
    ensures
        r == pixels(c as int, false),
{
    let px: i64 = c / 100;
    if px < i32::MIN as i64 {
        i32::MIN
    } else if px > i32::MAX as i64 {
        i32::MAX
    } else {
        px as i32
    }
}

/// Pixels as they are sent.
fn send(px: i32, invert: bool) -> (r: i32)
    ensures
        r == sent(px as int, invert),
{
    if !invert {
        px
    } else if px == i32::MIN {
        i32::MAX
    } else {
        -px
    }
}

/// The square of a number.
fn square(c: i64) -> (r: u128)
    ensures
        r == c * c,
        r <= 0x4000_0000_0000_0000_0000_0000_0000_0000,
{
    let m: u128 = if c >= 0 {
        c as u128
    } else {
        (-(c as i128)) as u128
    };
    proof {
        assert(0 <= m * m <= 0x8000_0000_0000_0000 * 0x8000_0000_0000_0000) by (nonlinear_arith)
            requires
                0 <= m <= 0x8000_0000_0000_0000,
        ;
        assert(m * m == c * c) by (nonlinear_arith)
            requires
                m == c || m == -c,
        ;
    }
    m * m
}

/// Carries the fraction of a pixel that a report leaves over.
#[derive(Clone, Copy, Debug, PartialEq, Eq, Structural)]
pub struct MouseAccumulator {
    h: i64,
    v: i64,
}

impl MouseAccumulator {
    /// The horizontal remainder in hundredths of a pixel.
    pub closed spec fn horizontal(self) -> int {
        self.h as int
    }

    /// The vertical remainder in hundredths of a pixel.
    pub closed spec fn vertical(self) -> int {
        self.v as int
    }

    /// Nothing carried.
    pub fn new() -> (r: MouseAccumulator)
        ensures
            r.horizontal() == 0,
            r.vertical() == 0,
    {
        MouseAccumulator { h: 0, v: 0 }
    }

    /// Drops what is carried.
    pub fn reset(&mut self)
        ensures
            final(self).horizontal() == 0,
            final(self).vertical() == 0,
    {
        *self = MouseAccumulator { h: 0, v: 0 };
    }

    /// What is carried, in hundredths of a pixel.
    pub fn remainder(&self) -> (r: (i64, i64))
        ensures
            r.0 == self.horizontal(),
            r.1 == self.vertical(),
    {
        (self.h, self.v)
    }

    /// Adds the motion of a report and returns the whole pixels to move, as many as an `i32` holds
    /// and each axis turned over where it is inverted. What is not sent is carried.
    pub fn finalize(&mut self, x: AxisMotion, y: AxisMotion, cfg: &CarryCfg) -> (r: (i32, i32))
        ensures
            ({
                let cx = carried(old(self).horizontal(), x);
                let cy = carried(old(self).vertical(), y);
                let waits = deferred(cx, cy, *cfg);
                let px = pixels(cx, waits);
                let py = pixels(cy, waits);
                &&& r.0 == sent(px, cfg.invert_x)
                &&& r.1 == sent(py, cfg.invert_y)
                &&& final(self).horizontal() == cx - 100 * px
                &&& final(self).vertical() == cy - 100 * py
            }),
    {
        let cx: i64 = carry(self.h, x);
        let cy: i64 = carry(self.v, y);
        let waits: bool = match cfg.least_sq {
            None => false,
            Some(least) => square(cx) + square(cy) < least as u128,
        };
        if waits {
            *self = MouseAccumulator { h: cx, v: cy };
            return (0, 0);
        }
        let px: i32 = whole_pixels(cx);
        let py: i32 = whole_pixels(cy);
        *self = MouseAccumulator { h: cx - 100 * px as i64, v: cy - 100 * py as i64 };
        (send(px, cfg.invert_x), send(py, cfg.invert_y))
    }
}

impl Default for MouseAccumulator {
    fn default() -> (r: MouseAccumulator)
        ensures
            r.horizontal() == 0,
            r.vertical() == 0,
    {
        MouseAccumulator { h: 0, v: 0 }
    }
}

/// What is emitted leaves less than a pixel to carry, as long as a report can send all of it; what
/// is left is on the side that the motion points to, and a motion that waits is carried whole.
pub proof fn less_than_a_pixel_remains(c: int)
    ensures
        fits_i32(trunc_div(c, 100)) ==> -100 < c - 100 * pixels(c, false) < 100,
        c >= 0 ==> c - 100 * pixels(c, false) >= 0 && pixels(c, false) >= 0,
        c <= 0 ==> c - 100 * pixels(c, false) <= 0 && pixels(c, false) <= 0,
        c - 100 * pixels(c, true) == c,
{
}

/// Over two reports in one direction, none of which waits, the emitted pixels are those of the
/// whole motion: splitting a motion into reports loses nothing that one report can send.
pub proof fn splitting_loses_nothing(rem: int, a: AxisMotion, b: AxisMotion)
    requires
        a.valid(),
        b.valid(),
        a.sign == b.sign,
        a.sign != 0,
        rem == 0 || (rem > 0) == (a.sign > 0),
        fits_i32(trunc_div(rem + a.hundredths + b.hundredths, 100)),
    ensures
        ({
            let c1 = carried(rem, a);
            let p1 = pixels(c1, false);
            let c2 = carried(c1 - 100 * p1, b);
            p1 + pixels(c2, false) == trunc_div(rem + a.hundredths + b.hundredths, 100)
        }),
{
}

/// What is carried counts while the motion goes on in the same direction, however short it is.
pub proof fn going_on_adds_the_remainder(rem: int, m: AxisMotion)
    requires
        m.valid(),
        (m.sign > 0 && rem > 0) || (m.sign < 0 && rem < 0),
        -0x4000_0000_0000_0000 <= m.hundredths <= 0x4000_0000_0000_0000,
        -0x4000_0000_0000_0000 < rem < 0x4000_0000_0000_0000,
    ensures
        carried(rem, m) == m.hundredths + rem,
{
}

/// A motion waits exactly where a least motion is asked for and its length is short of it.
pub proof fn short_motions_wait(cx: int, cy: int, cfg: CarryCfg)
    ensures
        cfg.least_sq is None ==> !deferred(cx, cy, cfg),
        cfg.least_sq matches Some(least) ==> (deferred(cx, cy, cfg) <==> cx * cx + cy * cy < least),
        pixels(cx, true) == 0,
{
}

/// Whole pixels are sent as they are, or with their sign turned over where the axis is inverted; a
/// report sends no more than an `i32` holds.
pub proof fn inverted_axes_turn_over(c: int, px: int)
    requires
        -0x8000_0000 <= px <= 0x7FFF_FFFF,
    ensures
        sent(px, false) == px,
        px > -0x8000_0000 ==> sent(px, true) == -px,
        sent(-0x8000_0000, true) == 0x7FFF_FFFF,
        c >= 214_748_364_700 ==> pixels(c, false) == 0x7FFF_FFFF,
        c <= -214_748_364_800 ==> pixels(c, false) == -0x8000_0000,
        -214_748_364_800 < c < 214_748_364_700 ==> -100 < c - 100 * pixels(c, false) < 100,
{
}

/// A change of direction starts afresh: nothing carried the other way counts.
pub proof fn turning_drops_the_remainder(rem: int, m: AxisMotion)
    requires
        m.valid(),
        (m.sign > 0 && rem < 0) || (m.sign < 0 && rem > 0) || m.sign == 0,
    ensures
        carried(rem, m) == m.hundredths,
{
}

/// Where nothing is tuned, a stick moves the mouse at 25 and a finger at one, from the smallest
/// motion on, unaccelerated and the right way round; jitter of the touchpad is evened out.
pub proof fn untuned_motion_is_plain()
    ensures
        ({
            let m = MouseAccumCfg::default_spec();
            &&& m.sensitivity.bits == 0x4039_0000_0000_0000
            &&& m.vertical_scale.bits == 0x3FF0_0000_0000_0000
            &&& m.velocity_offset.bits == 0x3F88_9374_BC6A_7EFA
            &&& m.deadzone.bits == 0 && m.min_threshold.bits == 0x3FF0_0000_0000_0000
            &&& !m.accelerate && m.accel_power.bits == 0x3FF0_0000_0000_0000
            &&& !m.invert_x && !m.invert_y
        }),
        ({
            let t = TouchAccumCfg::default_spec();
            &&& t.sensitivity.bits == 0x3FF0_0000_0000_0000
            &&& t.velocity_offset.bits == 0x3F8E_B851_EB85_1EB8
            &&& t.min_threshold.bits == 0x3FF0_0000_0000_0000
            &&& t.jitter_comp && !t.invert_x && !t.invert_y
        }),
{
}

/// One and the number next below it stand for "no threshold", and no other number does.
pub proof fn one_stands_for_no_threshold(v: Scalar)
    ensures
        v.bits == 0x3FF0_0000_0000_0000 ==> stands_for_none(v),
        v.bits + 1 == 0x3FF0_0000_0000_0000 ==> stands_for_none(v),
        stands_for_none(v) ==> v.bits == 0x3FF0_0000_0000_0000 || v.bits + 1
            == 0x3FF0_0000_0000_0000,
{
}

} // verus!
