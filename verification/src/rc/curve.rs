//! The dynamic curve from stick speed to filter strength.

use vstd::arithmetic::power2::{
    lemma2_to64_rest, lemma_pow2_strictly_increases, lemma_pow2_unfold, pow2,
};
use vstd::prelude::*;

use crate::ints::{clamp_i32, clamp_int, div_i32, fits_i32, trunc_div, trunc_div_falls_short};
use crate::rc::coeffs::{MAX_PARAM, MAX_SPEED, MIN_PARAM};
use crate::scalar::{Scalar, FRACTION_SPAN};

verus! {

/// A curve through four points: `y0` at rest, `(x1, y1)`, `(x2, y2)`, and `y3` at full speed.
#[derive(Clone, Copy, Debug, PartialEq, Eq, Structural)]
pub struct RcCurve {
    pub y0: i32,
    pub x1: i32,
    pub y1: i32,
    pub x2: i32,
    pub y2: i32,
    pub y3: i32,
}

impl RcCurve {
    /// The flat curve of strength 100.
    pub open spec fn default_spec() -> RcCurve {
        RcCurve { y0: 100, x1: 32, y1: 100, x2: 96, y2: 100, y3: 100 }
    }

    /// First breakpoint, held between 0 and full speed.
    pub open spec fn first_break(self) -> int {
        clamp_int(self.x1 as int, 0, MAX_SPEED as int)
    }

    /// Second breakpoint, held between the first one and full speed.
    pub open spec fn second_break(self) -> int {
        clamp_int(self.x2 as int, self.first_break(), MAX_SPEED as int)
    }

    /// The segment that a speed falls on.
    pub open spec fn segment(self, speed: int) -> Segment {
        let a = self.first_break();
        let b = self.second_break();
        if speed <= a {
            Segment { base: self.y0 as int, rise: self.y1 - self.y0, run: speed, length: a }
        } else if speed <= b {
            Segment { base: self.y1 as int, rise: self.y2 - self.y1, run: speed - a, length: b - a }
        } else {
            Segment {
                base: self.y2 as int,
                rise: self.y3 - self.y2,
                run: speed - b,
                length: MAX_SPEED - b,
            }
        }
    }
}

impl Default for RcCurve {
    fn default() -> (r: RcCurve)
        ensures
            r == RcCurve::default_spec(),
    {
        RcCurve { y0: 100, x1: 32, y1: 100, x2: 96, y2: 100, y3: 100 }
    }
}

/// A straight piece of the curve: it starts at `base`, rises by `rise` over `length`, and is
/// looked at `run` from its start.
pub struct Segment {
    pub base: int,
    pub rise: int,
    pub run: int,
    pub length: int,
}

impl Segment {
    /// The height at `run`, truncated; a segment of no length stays at its base.
    pub open spec fn height(self) -> int {
        if self.length > 0 {
            self.base + trunc_div(self.run * self.rise, self.length)
        } else {
            self.base
        }
    }

    /// Whether the height can be computed in 32 bits.
    pub open spec fn fits(self) -> bool {
        self.length > 0 ==> {
            &&& fits_i32(self.rise)
            &&& fits_i32(self.run * self.rise)
            &&& fits_i32(self.height())
        }
    }
}

/// Holds a filter strength in its range.
pub fn clamp_param(v: i32) -> (r: i32)
    ensures
        r == clamp_int(v as int, MIN_PARAM as int, MAX_PARAM as int),
{
    clamp_i32(v, MIN_PARAM, MAX_PARAM)
}

/// The filter strength of a stick speed: the height of its segment, held in the range.
pub open spec fn param_at(c: RcCurve, speed: int) -> int {
    clamp_int(c.segment(speed).height(), MIN_PARAM as int, MAX_PARAM as int)
}

/// The height of a segment.
fn interpolate(base: i32, from: i32, to: i32, run: i32, length: i32) -> (r: i32)
    requires
        0 <= length,
        length > 0 ==> fits_i32(to - from) && fits_i32(run * (to - from)) && fits_i32(
            base + trunc_div(run * (to - from), length as int),
        ),
    ensures
        r == (if length > 0 {
            base + trunc_div(run * (to - from), length as int)
        } else {
            base as int
        }),
{
    if length > 0 {
        let rise: i32 = to - from;
        let product: i32 = run * rise;
        base + div_i32(product, length)
    } else {
        base
    }
}

/// The filter strength of a stick speed.
pub fn param_from_speed(c: &RcCurve, speed: i32) -> (r: i32)
    requires
        c.segment(speed as int).fits(),
    ensures
        r == param_at(*c, speed as int),
        MIN_PARAM <= r <= MAX_PARAM,
{
    let x1: i32 = clamp_i32(c.x1, 0, MAX_SPEED);
    let x2: i32 = clamp_i32(c.x2, x1, MAX_SPEED);
    let height: i32 = if speed <= x1 {
        interpolate(c.y0, c.y0, c.y1, speed, x1)
    } else if speed <= x2 {
        interpolate(c.y1, c.y1, c.y2, speed - x1, x2 - x1)
    } else {
        interpolate(c.y2, c.y2, c.y3, speed - x2, MAX_SPEED - x2)
    };
    clamp_param(height)
}

/// Whether the height of a segment can be computed in 32 bits.
fn interpolates(base: i32, from: i32, to: i32, run: i64, length: i64) -> (r: bool)
    requires
        -0x1_0000_0000 <= run <= 0x1_0000_0000,
        0 <= length <= MAX_SPEED,
    ensures
        r == (Segment {
            base: base as int,
            rise: to - from,
            run: run as int,
            length: length as int,
        }).fits(),
{
    if length == 0 {
        return true;
    }
    let rise: i64 = to as i64 - from as i64;
    if rise < i32::MIN as i64 || rise > i32::MAX as i64 {
        return false;
    }
    assert(-0x8000_0000_0000_0000 <= run * rise <= 0x8000_0000_0000_0000) by (nonlinear_arith)
        requires
            -0x1_0000_0000 <= run <= 0x1_0000_0000,
            -0x8000_0000 <= rise <= 0x7FFF_FFFF,
    ;
    let product: i128 = run as i128 * rise as i128;
    if product < i32::MIN as i128 || product > i32::MAX as i128 {
        return false;
    }
    let height: i64 = base as i64 + div_i32(product as i32, length as i32) as i64;
    i32::MIN as i64 <= height && height <= i32::MAX as i64
}

/// Whether the strength of a stick speed can be computed in 32 bits.
pub fn can_evaluate(c: &RcCurve, speed: i32) -> (r: bool)
    ensures
        r == c.segment(speed as int).fits(),
{
    let x1: i32 = clamp_i32(c.x1, 0, MAX_SPEED);
    let x2: i32 = clamp_i32(c.x2, x1, MAX_SPEED);
    if speed <= x1 {
        interpolates(c.y0, c.y0, c.y1, speed as i64, x1 as i64)
    } else if speed <= x2 {
        interpolates(c.y1, c.y1, c.y2, speed as i64 - x1 as i64, x2 as i64 - x1 as i64)
    } else {
        interpolates(c.y2, c.y2, c.y3, speed as i64 - x2 as i64, MAX_SPEED as i64 - x2 as i64)
    }
}

/// Pattern of `255.0`, the upper end of an 8-bit stick unit.
pub const TOP_BITS: u64 = 0x406F_E000_0000_0000;

/// A reading on the 8-bit stick scale in sixteenths, to the nearest, held between its ends; 0 where
/// it is no number.
pub open spec fn raw12_of(v: Scalar) -> int {
    if v.is_nan() || v.key() <= 0 {
        0
    } else if v.key() >= TOP_BITS {
        4080
    } else {
        v.times_spec(16)
    }
}

/// A reading below the upper end is at most as many sixteenths.
proof fn sixteenths_stay_below_the_top(v: Scalar)
    requires
        v.bits < TOP_BITS,
    ensures
        v.times_spec(16) <= 4080,
{
    let e = if v.exponent() == 0 { 1 } else { v.exponent() };
    let shift = (1075 - e) as nat;
    lemma2_to64_rest();
    lemma_pow2_unfold(shift);
    if shift > 45 {
        lemma_pow2_strictly_increases(45, shift);
        lemma_pow2_unfold(46);
        if shift > 46 {
            lemma_pow2_strictly_increases(46, shift);
        }
    }
    let d = pow2(shift) as int;
    let half = pow2((shift - 1) as nat) as int;
    let sig = v.significand();
    assert(sig < 2 * FRACTION_SPAN);
    if shift == 45 {
        assert(sig < 255 * 0x2000_0000_0000);
        assert((16 * sig + half) / d <= 4080) by (nonlinear_arith)
            requires
                sig < 255 * 0x2000_0000_0000,
                d == 0x2000_0000_0000,
                d == 2 * half,
        ;
    } else {
        assert((16 * sig + half) / d <= 4080) by (nonlinear_arith)
            requires
                sig < 0x20_0000_0000_0000,
                d >= 0x4000_0000_0000,
                d == 2 * half,
        ;
    }
}

/// A reading on the 8-bit stick scale in sixteenths, to the nearest.
pub fn to_raw12(input_ds4: Scalar) -> (r: i32)
    ensures
        r == raw12_of(input_ds4),
        0 <= r <= 4080,
{
    proof {
        if 0 < input_ds4.key() < TOP_BITS {
            sixteenths_stay_below_the_top(input_ds4);
        }
    }
    if !input_ds4.gt(Scalar { bits: 0 }) {
        0
    } else if input_ds4.ge(Scalar { bits: TOP_BITS }) {
        4080
    } else {
        input_ds4.times(16) as i32
    }
}

/// The stick speed of a change per report: the change times the period over 8 ms, truncated, and
/// at most full speed.
pub open spec fn legacy_speed(delta: int, period_us: int) -> int {
    let v = trunc_div(delta * period_us, 8000);
    if v > MAX_SPEED {
        MAX_SPEED as int
    } else {
        v
    }
}

/// The stick speed of a change per report counts whole units: it is the whole part of the change
/// times the period over 8 ms, up to 128.
pub proof fn speed_counts_whole_units(delta: int, period_us: int)
    requires
        delta >= 0,
        period_us >= 0,
    ensures
        0 <= legacy_speed(delta, period_us) <= 128,
        8000 * legacy_speed(delta, period_us) <= delta * period_us,
        legacy_speed(delta, period_us) < 128 ==> delta * period_us < 8000 * legacy_speed(
            delta,
            period_us,
        ) + 8000,
{
    assert(delta * period_us >= 0) by (nonlinear_arith)
        requires
            delta >= 0,
            period_us >= 0,
    ;
    trunc_div_falls_short(delta * period_us, 8000);
}

/// A larger change is at least as fast.
pub proof fn larger_changes_are_faster(a: int, b: int, period_us: int)
    requires
        0 <= a <= b,
        period_us >= 0,
    ensures
        legacy_speed(a, period_us) <= legacy_speed(b, period_us),
{
    assert(a * period_us <= b * period_us) by (nonlinear_arith)
        requires
            a <= b,
            period_us >= 0,
    ;
    speed_counts_whole_units(a, period_us);
    speed_counts_whole_units(b, period_us);
}

/// The stick speed of a change per report, for a filter bound to the report rate: the change in
/// twelve-bit units scaled by the period over 8 ms, at most full speed.
pub fn speed_legacy(delta_raw12: i32, period_us: i32) -> (r: i32)
    requires
        fits_i32(delta_raw12 * period_us),
    ensures
        r == legacy_speed(delta_raw12 as int, period_us as int),
        r == (if trunc_div(delta_raw12 * period_us, 8000) > MAX_SPEED {
            MAX_SPEED as int
        } else {
            trunc_div(delta_raw12 * period_us, 8000)
        }),
{
    let v: i32 = div_i32(delta_raw12 * period_us, 8000);
    if v > MAX_SPEED {
        MAX_SPEED
    } else {
        v
    }
}

/// A reading counts in sixteenths: none at zero, below it and where it is no number, 4080 from 255
/// on, and sixteen times the reading, to the nearest, between.
pub proof fn readings_count_in_sixteenths(v: Scalar)
    ensures
        v.bits == 0 || v.bits > 0x7FF0_0000_0000_0000 ==> raw12_of(v) == 0,
        0x406F_E000_0000_0000 <= v.bits <= 0x7FF0_0000_0000_0000 ==> raw12_of(v) == 4080,
        0 < v.bits < 0x406F_E000_0000_0000 ==> raw12_of(v) == v.times_spec(16),
{
}

/// A curve whose strengths lie in their range can be evaluated at every speed in its range.
pub proof fn ordinary_curves_fit(c: RcCurve, speed: int)
    requires
        0 <= speed <= MAX_SPEED,
        MIN_PARAM <= c.y0 <= MAX_PARAM,
        MIN_PARAM <= c.y1 <= MAX_PARAM,
        MIN_PARAM <= c.y2 <= MAX_PARAM,
        MIN_PARAM <= c.y3 <= MAX_PARAM,
    ensures
        c.segment(speed).fits(),
{
    let s = c.segment(speed);
    if s.length > 0 {
        assert(-128_000 <= s.run * s.rise <= 128_000) by (nonlinear_arith)
            requires
                0 <= s.run <= 128,
                -1000 <= s.rise <= 1000,
        ;
        let p = s.run * s.rise;
        let a = if p >= 0 { p } else { -p };
        assert(0 <= a / s.length <= a) by (nonlinear_arith)
            requires
                0 <= a,
                s.length > 0,
        ;
    }
}

/// On a flat curve every speed has the same strength.
pub proof fn flat_curve_is_constant(c: RcCurve, speed: int)
    requires
        c.y0 == c.y1 == c.y2 == c.y3,
    ensures
        param_at(c, speed) == clamp_int(c.y0 as int, MIN_PARAM as int, MAX_PARAM as int),
{
    let s = c.segment(speed);
    assert(s.run * s.rise == 0) by (nonlinear_arith)
        requires
            s.rise == 0,
    ;
    if s.length > 0 {
        assert(0int / s.length == 0) by {
            vstd::arithmetic::div_mod::lemma_div_basics(s.length);
        }
    }
}

/// The curve passes through its breakpoints: rest, the first one, the second one and full speed
/// have the strengths that the curve names for them, wherever the segments before them have a
/// length.
pub proof fn curve_meets_its_points(c: RcCurve)
    ensures
        param_at(c, 0) == clamp_int(c.y0 as int, MIN_PARAM as int, MAX_PARAM as int),
        c.first_break() > 0 ==> param_at(c, c.first_break()) == clamp_int(
            c.y1 as int,
            MIN_PARAM as int,
            MAX_PARAM as int,
        ),
        c.second_break() > c.first_break() ==> param_at(c, c.second_break()) == clamp_int(
            c.y2 as int,
            MIN_PARAM as int,
            MAX_PARAM as int,
        ),
        MAX_SPEED > c.second_break() ==> param_at(c, MAX_SPEED as int) == clamp_int(
            c.y3 as int,
            MIN_PARAM as int,
            MAX_PARAM as int,
        ),
{
    let s0 = c.segment(0);
    assert(s0.run * s0.rise == 0) by (nonlinear_arith)
        requires
            s0.run == 0,
    ;
    if s0.length > 0 {
        vstd::arithmetic::div_mod::lemma_div_basics(s0.length);
    }
    if c.first_break() > 0 {
        whole_segment(c.segment(c.first_break()));
    }
    if c.second_break() > c.first_break() {
        whole_segment(c.segment(c.second_break()));
    }
    if MAX_SPEED > c.second_break() {
        whole_segment(c.segment(MAX_SPEED as int));
    }
}

/// Whether `h` is the truncated height at `run` of a line from `from` to `to` over `length`: it
/// has left `from` towards `to` by the whole part of its share.
pub open spec fn on_the_line(h: int, from: int, to: int, run: int, length: int) -> bool {
    &&& from <= to ==> from <= h && (h - from) * length <= run * (to - from) < (h - from) * length
        + length
    &&& to <= from ==> h <= from && (from - h) * length <= run * (from - to) < (from - h) * length
        + length
}

/// The height of a segment with a length lies on its line.
proof fn segment_lies_on_the_line(s: Segment)
    requires
        s.length > 0,
        0 <= s.run <= s.length,
    ensures
        on_the_line(s.height(), s.base, s.base + s.rise, s.run, s.length),
        s.rise >= 0 ==> s.base <= s.height() <= s.base + s.rise,
        s.rise <= 0 ==> s.base + s.rise <= s.height() <= s.base,
{
    let d = s.height() - s.base;
    trunc_div_falls_short(s.run * s.rise, s.length);
    assert(d == trunc_div(s.run * s.rise, s.length));
    assert(s.rise >= 0 ==> 0 <= s.run * s.rise <= s.length * s.rise) by (nonlinear_arith)
        requires
            0 <= s.run <= s.length,
    ;
    assert(s.rise <= 0 ==> s.length * s.rise <= s.run * s.rise <= 0) by (nonlinear_arith)
        requires
            0 <= s.run <= s.length,
    ;
    assert(s.run * -s.rise == -(s.run * s.rise) && (-d) * s.length == -(d * s.length))
        by (nonlinear_arith);
    if s.rise >= 0 {
        assert(0 <= d <= s.rise) by (nonlinear_arith)
            requires
                0 <= d * s.length <= s.length * s.rise,
                s.length > 0,
        ;
    } else {
        assert(s.rise <= d <= 0) by (nonlinear_arith)
            requires
                s.length * s.rise <= d * s.length <= 0,
                s.length > 0,
        ;
    }
}

/// The strength runs along straight lines between the points of the curve, in whole steps: from
/// rest to the first breakpoint, on to the second, and on to full speed at 128.
pub proof fn strength_follows_the_lines(c: RcCurve, speed: int)
    requires
        0 < c.x1 < c.x2 < 128,
        -500 <= c.y0 <= 500,
        -500 <= c.y1 <= 500,
        -500 <= c.y2 <= 500,
        -500 <= c.y3 <= 500,
        0 <= speed <= 128,
    ensures
        speed <= c.x1 ==> on_the_line(
            param_at(c, speed),
            c.y0 as int,
            c.y1 as int,
            speed,
            c.x1 as int,
        ),
        c.x1 < speed <= c.x2 ==> on_the_line(
            param_at(c, speed),
            c.y1 as int,
            c.y2 as int,
            speed - c.x1,
            c.x2 - c.x1,
        ),
        c.x2 < speed ==> on_the_line(
            param_at(c, speed),
            c.y2 as int,
            c.y3 as int,
            speed - c.x2,
            128 - c.x2,
        ),
{
    segment_lies_on_the_line(c.segment(speed));
}

/// The strength never leaves its range, whatever the curve and the speed.
pub proof fn strength_stays_in_range(c: RcCurve, speed: int)
    ensures
        -500 <= param_at(c, speed) <= 500,
{
}

/// Breakpoints out of order or out of range count as the nearest ones in order: the first one
/// between 0 and 128, the second one between the first and 128.
pub proof fn breakpoints_are_put_in_order(c: RcCurve, speed: int)
    ensures
        c.x1 < 0 ==> param_at(c, speed) == param_at(RcCurve { x1: 0, ..c }, speed),
        c.x1 > 128 ==> param_at(c, speed) == param_at(RcCurve { x1: 128, ..c }, speed),
        0 <= c.x1 <= 128 && c.x2 < c.x1 ==> param_at(c, speed) == param_at(
            RcCurve { x2: c.x1, ..c },
            speed,
        ),
        c.x2 > 128 ==> param_at(c, speed) == param_at(RcCurve { x2: 128, ..c }, speed),
{
}

/// At its end a segment has risen by its whole rise.
proof fn whole_segment(s: Segment)
    requires
        s.length > 0,
        s.run == s.length,
    ensures
        s.height() == s.base + s.rise,
{
    let a = if s.rise >= 0 { s.rise } else { -s.rise };
    vstd::arithmetic::div_mod::lemma_div_multiples_vanish(a, s.length);
    assert(s.length * s.rise == (if s.rise >= 0 { s.length * a } else { -(s.length * a) }))
        by (nonlinear_arith)
        requires
            s.rise == a || s.rise == -a,
            a >= 0,
            (s.rise >= 0) ==> s.rise == a,
            (s.rise < 0) ==> s.rise == -a,
    ;
    assert(s.length * a >= 0) by (nonlinear_arith)
        requires
            s.length > 0,
            a >= 0,
    ;
    if s.rise < 0 {
        assert(s.length * a > 0) by (nonlinear_arith)
            requires
                s.length > 0,
                a > 0,
        ;
    }
}

} // verus!
