//! The decisions of the single stick stages; their geometry is left to the caller.

use vstd::prelude::*;

use crate::scalar::Scalar;
use crate::stick::settings::{
    pruned, remembered, AntiSnapback, AxisDeadZone, SnapSample, SnapbackRing, StickDeadZone,
    HUNDRED_BITS,
};

verus! {

/// Pattern of `128.0`, a stick axis at rest.
pub const CENTRE_BITS: u64 = 0x4060_0000_0000_0000;

/// Pattern of `255.0`, the upper end of a stick axis.
pub const END_BITS: u64 = 0x406F_E000_0000_0000;

/// Pattern of `0.4`, the end of the fine piece of the precision curve.
pub const FINE_END_BITS: u64 = 0x3FD9_9999_9999_999A;

/// Pattern of `0.75`, the end of the middle piece of the precision curve.
pub const MIDDLE_END_BITS: u64 = 0x3FE8_0000_0000_0000;

/// What a dead zone does with a stick position.
#[derive(Clone, Copy, Debug, PartialEq, Eq, Structural)]
pub enum DeadZoneOutcome {
    /// The position passes unchanged.
    Pass,
    /// The stick is at rest.
    Centre,
    /// The position is rescaled.
    Scale,
}

impl StickDeadZone {
    /// Whether the radial model rescales positions outside the dead zone even without one.
    pub open spec fn rescales(self) -> bool {
        ||| self.anti_dead_zone > 0
        ||| self.max_zone != 100
        ||| !self.max_output.num_eq_spec(Scalar { bits: HUNDRED_BITS })
        ||| self.max_output_force
        ||| !self.vertical_scale.num_eq_spec(Scalar { bits: HUNDRED_BITS })
    }

    /// What the radial model does with a position.
    pub open spec fn radial_spec(self, inside: bool) -> DeadZoneOutcome {
        if self.dead_zone <= 0 && !self.rescales() {
            DeadZoneOutcome::Pass
        } else if self.dead_zone > 0 && inside {
            DeadZoneOutcome::Centre
        } else {
            DeadZoneOutcome::Scale
        }
    }

    /// What the radial model does with a position; `inside` tells whether it lies in the circle
    /// of the dead zone's radius.
    pub fn radial_outcome(&self, inside: bool) -> (r: DeadZoneOutcome)
        ensures
            r == self.radial_spec(inside),
            r == (if self.dead_zone <= 0 && !self.rescales() {
                DeadZoneOutcome::Pass
            } else if self.dead_zone > 0 && inside {
                DeadZoneOutcome::Centre
            } else {
                DeadZoneOutcome::Scale
            }),
    {
        let hundred: Scalar = Scalar { bits: HUNDRED_BITS };
        let rescales: bool = self.anti_dead_zone > 0 || self.max_zone != 100
            || !self.max_output.num_eq(hundred) || self.max_output_force
            || !self.vertical_scale.num_eq(hundred);
        if self.dead_zone <= 0 && !rescales {
            DeadZoneOutcome::Pass
        } else if self.dead_zone > 0 && inside {
            DeadZoneOutcome::Centre
        } else {
            DeadZoneOutcome::Scale
        }
    }
}

impl AxisDeadZone {
    /// Whether the settings of one axis change nothing.
    pub open spec fn is_identity(self) -> bool {
        &&& self.dead_zone <= 0
        &&& self.anti_dead_zone <= 0
        &&& self.max_zone == 100
        &&& self.max_output.num_eq_spec(Scalar { bits: HUNDRED_BITS })
    }

    /// What the axial model does with one axis.
    pub open spec fn axial_spec(self, inside: bool) -> DeadZoneOutcome {
        if self.is_identity() {
            DeadZoneOutcome::Pass
        } else if self.dead_zone > 0 && inside {
            DeadZoneOutcome::Centre
        } else {
            DeadZoneOutcome::Scale
        }
    }

    /// What the axial model does with one axis; `inside` tells whether its distance from rest is
    /// at most the dead zone.
    pub fn axial_outcome(&self, inside: bool) -> (r: DeadZoneOutcome)
        ensures
            r == self.axial_spec(inside),
            r == (if self.is_identity() {
                DeadZoneOutcome::Pass
            } else if self.dead_zone > 0 && inside {
                DeadZoneOutcome::Centre
            } else {
                DeadZoneOutcome::Scale
            }),
    {
        if self.dead_zone <= 0 && self.anti_dead_zone <= 0 && self.max_zone == 100
            && self.max_output.num_eq(Scalar { bits: HUNDRED_BITS }) {
            DeadZoneOutcome::Pass
        } else if self.dead_zone > 0 && inside {
            DeadZoneOutcome::Centre
        } else {
            DeadZoneOutcome::Scale
        }
    }
}

/// A radial dead zone passes a position exactly where it has no size and nothing is set that
/// rescales; with a size it puts everything inside to rest; everything else it rescales.
pub proof fn radial_zone_decides(d: StickDeadZone, inside: bool)
    ensures
        ({
            let plain = d.anti_dead_zone <= 0 && d.max_zone == 100 && d.max_output.bits
                == 0x4059_0000_0000_0000 && !d.max_output_force && d.vertical_scale.bits
                == 0x4059_0000_0000_0000;
            let r = d.radial_spec(inside);
            &&& r is Pass <==> d.dead_zone <= 0 && plain
            &&& r is Centre <==> d.dead_zone > 0 && inside
            &&& r is Scale <==> !(r is Pass) && !(r is Centre)
        }),
{
}

/// The dead zone of an axis passes it exactly where nothing is set; with a size it puts everything
/// inside to rest; everything else it rescales.
pub proof fn axial_zone_decides(a: AxisDeadZone, inside: bool)
    ensures
        ({
            let plain = a.anti_dead_zone <= 0 && a.max_zone == 100 && a.max_output.bits
                == 0x4059_0000_0000_0000;
            let r = a.axial_spec(inside);
            &&& r is Pass <==> a.dead_zone <= 0 && plain
            &&& r is Centre <==> a.dead_zone > 0 && inside
            &&& r is Scale <==> !(r is Pass) && !(r is Centre)
        }),
{
}

/// What the fuzz filter shows of one axis.
pub open spec fn defuzzed(primed: bool, moved: bool, last: Scalar, v: Scalar) -> Scalar {
    if !primed || moved || at_end(v) {
        v
    } else {
        last
    }
}

/// What the fuzz filter shows of both axes.
pub open spec fn defuzzed_pair(
    primed: bool,
    moved: bool,
    last: Seq<Scalar>,
    x: Scalar,
    y: Scalar,
) -> (Scalar, Scalar) {
    (defuzzed(primed, moved, last[0], x), defuzzed(primed, moved, last[1], y))
}

/// Each axis is filtered by itself, against its own last value: X by X and Y by Y.
pub proof fn fuzz_keeps_the_axes_apart(
    primed: bool,
    moved: bool,
    last: Seq<Scalar>,
    x: Scalar,
    y: Scalar,
    other: Scalar,
)
    ensures
        ({
            let (u, v) = defuzzed_pair(primed, moved, last, x, y);
            &&& u == x || u == last[0]
            &&& v == y || v == last[1]
            &&& !primed || moved ==> u == x && v == y
            &&& primed && !moved && x.bits == 0x4060_0000_0000_0000 ==> u == last[0]
            &&& primed && !moved && y.bits == 0x4060_0000_0000_0000 ==> v == last[1]
            &&& defuzzed_pair(primed, moved, last, x, other).0 == u
            &&& defuzzed_pair(primed, moved, last, other, y).1 == v
        }),
{
}

/// An axis that passes the fuzz filter shows its new value, and one that does not shows its last
/// one: the first position passes, one that has moved passes, and so does an axis at 0 or 255;
/// nothing else does.
pub proof fn fuzz_holds_until_moved(primed: bool, moved: bool, last: Scalar, v: Scalar)
    ensures
        ({
            let end = v.bits == 0 || v.bits == 0x8000_0000_0000_0000 || v.bits
                == 0x406F_E000_0000_0000;
            &&& !primed || moved || end ==> defuzzed(primed, moved, last, v) == v
            &&& primed && !moved && !end ==> defuzzed(primed, moved, last, v) == last
        }),
{
}

/// Whether an axis is at one of its ends, where the fuzz filter always lets it through.
pub open spec fn at_end(v: Scalar) -> bool {
    v.num_eq_spec(Scalar { bits: 0 }) || v.num_eq_spec(Scalar { bits: END_BITS })
}

/// The fuzz filter. An axis keeps its last passed value until the stick has moved far enough
/// (`moved`, measured over both axes) or the axis is at one of its ends. The first position
/// passes and seeds the filter.
pub fn fuzz(last: &mut [Scalar; 2], primed: &mut bool, moved: bool, x: Scalar, y: Scalar) -> (r: (
    Scalar,
    Scalar,
))
    ensures
        *final(primed),
        r == defuzzed_pair(*old(primed), moved, old(last)@, x, y),
        final(last)@ == seq![r.0, r.1],
{
    if !*primed {
        *last = [x, y];
        *primed = true;
        return (x, y);
    }
    let zero: Scalar = Scalar { bits: 0 };
    let end: Scalar = Scalar { bits: END_BITS };
    let ux: Scalar = if moved || x.num_eq(zero) || x.num_eq(end) {
        x
    } else {
        last[0]
    };
    let uy: Scalar = if moved || y.num_eq(zero) || y.num_eq(end) {
        y
    } else {
        last[1]
    };
    *last = [ux, uy];
    (ux, uy)
}

/// The oldest time that the anti-snapback window still covers.
pub open spec fn window_start(cfg: AntiSnapback, now_us: int) -> int {
    let span = cfg.timeout_ms * 1000;
    now_us - (if span > i64::MAX {
        i64::MAX as int
    } else if span < i64::MIN {
        i64::MIN as int
    } else {
        span
    })
}

/// The window reaches back by its length in milliseconds, so a sample stays for that long; windows
/// longer than the clock can count reach back as far as it can.
pub proof fn window_reaches_back(cfg: AntiSnapback, now_us: int)
    ensures
        0 <= cfg.timeout_ms <= 9_000_000_000_000_000 ==> window_start(cfg, now_us) == now_us - 1000
            * cfg.timeout_ms,
        cfg.timeout_ms > 9_300_000_000_000_000 ==> window_start(cfg, now_us) == now_us
            - 0x7FFF_FFFF_FFFF_FFFF,
{
}

/// Drops the positions that have left the anti-snapback window. What remains is what the caller
/// tests for a flight across the centre.
pub fn open_window(hist: &mut SnapbackRing, cfg: &AntiSnapback, now_us: i64)
    requires
        i64::MIN <= window_start(*cfg, now_us as int) <= i64::MAX,
    ensures
        final(hist)@ == pruned(old(hist)@, window_start(*cfg, now_us as int)),
{
    let span: i128 = cfg.timeout_ms as i128 * 1000;
    let held: i64 = if span > i64::MAX as i128 {
        i64::MAX
    } else if span < i64::MIN as i128 {
        i64::MIN
    } else {
        span as i64
    };
    hist.prune_older_than(now_us - held);
}

/// What a stick shows that may have flown across its centre.
pub open spec fn snapped(crossed: bool, x: Scalar, y: Scalar) -> (Scalar, Scalar) {
    if crossed {
        (Scalar { bits: CENTRE_BITS }, Scalar { bits: CENTRE_BITS })
    } else {
        (x, y)
    }
}

/// A stick that has flown across its centre rests at 128 on both axes, and any other shows where
/// it is.
pub proof fn flights_across_the_centre_rest(crossed: bool, x: Scalar, y: Scalar)
    ensures
        crossed ==> snapped(crossed, x, y).0.bits == 0x4060_0000_0000_0000 && snapped(
            crossed,
            x,
            y,
        ).1.bits == 0x4060_0000_0000_0000,
        !crossed ==> snapped(crossed, x, y).0 == x && snapped(crossed, x, y).1 == y,
{
}

/// Remembers a position and returns what the stick shows: its rest position where it has flown
/// across the centre (`crossed`), the position itself elsewhere.
pub fn anti_snapback(hist: &mut SnapbackRing, crossed: bool, x: Scalar, y: Scalar, now_us: i64) -> (r:
    (Scalar, Scalar))
    ensures
        r == snapped(crossed, x, y),
        final(hist)@ == remembered(old(hist)@, SnapSample { x, y, t_us: now_us }),
{
    hist.push(x, y, now_us);
    if crossed {
        (Scalar { bits: CENTRE_BITS }, Scalar { bits: CENTRE_BITS })
    } else {
        (x, y)
    }
}

/// The straight pieces of the precision curve.
#[derive(Clone, Copy, Debug, PartialEq, Eq, Structural)]
pub enum PrecisionPiece {
    /// Up to 0.4.
    Fine,
    /// From there to 0.75.
    Middle,
    /// Above.
    Coarse,
}

/// The piece of the precision curve that a travel falls on.
pub open spec fn piece_of(travel: Scalar) -> PrecisionPiece {
    if (Scalar { bits: FINE_END_BITS }).ge_spec(travel) {
        PrecisionPiece::Fine
    } else if (Scalar { bits: MIDDLE_END_BITS }).ge_spec(travel) {
        PrecisionPiece::Middle
    } else {
        PrecisionPiece::Coarse
    }
}

/// The pieces follow each other: the fine one up to 0.4, the middle one on to 0.75, the coarse one
/// above.
pub proof fn pieces_follow_each_other(travel: Scalar)
    requires
        travel.bits <= 0x7FF0_0000_0000_0000,
    ensures
        piece_of(travel) is Fine <==> travel.bits <= 0x3FD9_9999_9999_999A,
        piece_of(travel) is Middle <==> 0x3FD9_9999_9999_999A < travel.bits <= 0x3FE8_0000_0000_0000,
        piece_of(travel) is Coarse <==> travel.bits > 0x3FE8_0000_0000_0000,
{
}

/// The piece of the precision curve that a travel falls on.
pub fn precision_piece(travel: Scalar) -> (r: PrecisionPiece)
    ensures
        r == piece_of(travel),
        r == (if (Scalar { bits: FINE_END_BITS }).ge_spec(travel) {
            PrecisionPiece::Fine
        } else if (Scalar { bits: MIDDLE_END_BITS }).ge_spec(travel) {
            PrecisionPiece::Middle
        } else {
            PrecisionPiece::Coarse
        }),
{
    if (Scalar { bits: FINE_END_BITS }).ge(travel) {
        PrecisionPiece::Fine
    } else if (Scalar { bits: MIDDLE_END_BITS }).ge(travel) {
        PrecisionPiece::Middle
    } else {
        PrecisionPiece::Coarse
    }
}

} // verus!
