//! Turning the mouse motion of a report into pixels.
//!
//! A report leaves its mouse motions as steps to be computed. Their speed is worked out elsewhere;
//! what is left to do here is which finger counts, what each source carries from report to report,
//! and the events that result.

use vstd::prelude::*;

use crate::input::state::TouchContact;
use crate::map::engine::{finish_batch, first_events, lowered, KbmStep, MapState, MoveInput};
use crate::map::profile::{GyroSettings, MouseSettings, ResolvedProfile, TouchpadSettings};
use crate::mouse_accum::{
    carried, deferred, pixels, sent, CarryCfg, MouseAccumulator, MouseMotion,
};
use crate::output::kbm::KbmBatch;

verus! {

/// How far a finger has moved on the pad: nothing unless the same finger was there before.
pub open spec fn finger_delta(prev: TouchContact, cur: TouchContact) -> Option<(int, int)> {
    if prev.is_active && cur.is_active && prev.id == cur.id {
        Some((cur.x - prev.x, cur.y - prev.y))
    } else {
        None
    }
}

/// How far a finger has moved on the pad, so that putting a finger down never moves the mouse.
pub fn touch_delta(prev: &TouchContact, cur: &TouchContact) -> (r: Option<(i32, i32)>)
    ensures
        r is Some <==> finger_delta(*prev, *cur) is Some,
        r matches Some(d) ==> finger_delta(*prev, *cur) == Some((d.0 as int, d.1 as int)),
{
    if prev.is_active && cur.is_active && prev.id == cur.id {
        Some((cur.x as i32 - prev.x as i32, cur.y as i32 - prev.y as i32))
    } else {
        None
    }
}

/// The square of the least motion that each source emits, in hundredths of a pixel squared; none
/// stands for "all of it".
#[derive(Clone, Copy, Debug, PartialEq, Eq, Structural)]
pub struct LeastMotions {
    pub stick: Option<u64>,
    pub gyro: Option<u64>,
    pub touch: Option<u64>,
}

/// How the motion of a source becomes pixels under a profile.
pub open spec fn carry_of(input: MoveInput, rp: ResolvedProfile, least: LeastMotions) -> CarryCfg {
    match input {
        MoveInput::Stick { .. } => CarryCfg {
            least_sq: least.stick,
            invert_x: rp.mouse.invert_x,
            invert_y: rp.mouse.invert_y,
        },
        MoveInput::Gyro { .. } => CarryCfg {
            least_sq: least.gyro,
            invert_x: rp.gyro.invert_x,
            invert_y: rp.gyro.invert_y,
        },
        MoveInput::Touch { .. } => CarryCfg {
            least_sq: least.touch,
            invert_x: rp.touchpad.invert_x,
            invert_y: rp.touchpad.invert_y,
        },
    }
}

/// What the three sources have left over, each sideways and down.
pub struct Leftovers {
    pub stick: (int, int),
    pub gyro: (int, int),
    pub touch: (int, int),
}

/// What an accumulator has left over.
pub open spec fn left_of(acc: MouseAccumulator) -> (int, int) {
    (acc.horizontal(), acc.vertical())
}

/// What the sources have left over in an engine's memory.
pub open spec fn leftovers(ms: MapState) -> Leftovers {
    Leftovers {
        stick: left_of(ms.stick_mouse),
        gyro: left_of(ms.gyro_mouse),
        touch: left_of(ms.touch_mouse),
    }
}

/// The pixels that a motion moves and what it leaves over.
pub open spec fn settled(left: (int, int), m: MouseMotion, cfg: CarryCfg) -> ((int, int), (int, int)) {
    let cx = carried(left.0, m.x);
    let cy = carried(left.1, m.y);
    let waits = deferred(cx, cy, cfg);
    let px = pixels(cx, waits);
    let py = pixels(cy, waits);
    (
        (sent(px, cfg.invert_x), sent(py, cfg.invert_y)),
        (cx - 100 * px, cy - 100 * py),
    )
}

/// Whether a motion comes from the touchpad without the finger of the last report.
pub open spec fn finger_changed(input: MoveInput) -> bool {
    input matches MoveInput::Touch { prev, cur } && finger_delta(prev, cur) is None
}

/// The pixels of the first `n` steps and what is left over after them. Where the finger on the
/// touchpad is lifted or another one comes, nothing moves and what it had left over is dropped. A
/// step without a motion moves nothing and leaves everything as it was.
pub open spec fn moved(
    steps: Seq<KbmStep>,
    motions: Seq<Option<MouseMotion>>,
    rp: ResolvedProfile,
    least: LeastMotions,
    start: Leftovers,
    n: int,
) -> (Seq<(i32, i32)>, Leftovers)
    decreases n,
{
    if n <= 0 {
        (Seq::empty(), start)
    } else {
        let (moves, left) = moved(steps, motions, rp, least, start, n - 1);
        match (steps[n - 1], motions[n - 1]) {
            (KbmStep::Move(input), _) if finger_changed(input) => (
                moves.push((0i32, 0i32)),
                Leftovers { touch: (0, 0), ..left },
            ),
            (KbmStep::Move(input), Some(m)) => {
                let cfg = carry_of(input, rp, least);
                let before = match input {
                    MoveInput::Stick { .. } => left.stick,
                    MoveInput::Gyro { .. } => left.gyro,
                    MoveInput::Touch { .. } => left.touch,
                };
                let (by, rest) = settled(before, m, cfg);
                (
                    moves.push((by.0 as i32, by.1 as i32)),
                    match input {
                        MoveInput::Stick { .. } => Leftovers { stick: rest, ..left },
                        MoveInput::Gyro { .. } => Leftovers { gyro: rest, ..left },
                        MoveInput::Touch { .. } => Leftovers { touch: rest, ..left },
                    },
                )
            },
            _ => (moves.push((0i32, 0i32)), left),
        }
    }
}

/// How the motion of a source becomes pixels under a profile.
fn carry_for(input: MoveInput, rp: &ResolvedProfile, least: &LeastMotions) -> (r: CarryCfg)
    ensures
        r == carry_of(input, *rp, *least),
{
    match input {
        MoveInput::Stick { .. } => CarryCfg {
            least_sq: least.stick,
            invert_x: rp.mouse.invert_x,
            invert_y: rp.mouse.invert_y,
        },
        MoveInput::Gyro { .. } => CarryCfg {
            least_sq: least.gyro,
            invert_x: rp.gyro.invert_x,
            invert_y: rp.gyro.invert_y,
        },
        MoveInput::Touch { .. } => CarryCfg {
            least_sq: least.touch,
            invert_x: rp.touchpad.invert_x,
            invert_y: rp.touchpad.invert_y,
        },
    }
}

/// Finishes a report: turns each computed motion into pixels with what its source had left over,
/// and collects the events. `motions` has one entry per step; only those of motion steps count.
pub fn finish_report(
    steps: &Vec<KbmStep>,
    motions: &Vec<Option<MouseMotion>>,
    rp: &ResolvedProfile,
    least: &LeastMotions,
    ms: &mut MapState,
) -> (r: KbmBatch)
    requires
        motions@.len() == steps@.len(),
    ensures
        ({
            let n = steps@.len() as int;
            let (moves, left) = moved(steps@, motions@, *rp, *least, leftovers(*old(ms)), n);
            &&& r@ == first_events(lowered(steps@, moves, n))
            &&& leftovers(*final(ms)) == left
        }),
        *final(ms) == (MapState {
            stick_mouse: final(ms).stick_mouse,
            gyro_mouse: final(ms).gyro_mouse,
            touch_mouse: final(ms).touch_mouse,
            ..*old(ms)
        }),
{
    let mut moves: Vec<(i32, i32)> = Vec::new();
    let mut stick: MouseAccumulator = ms.stick_mouse;
    let mut gyro: MouseAccumulator = ms.gyro_mouse;
    let mut touch: MouseAccumulator = ms.touch_mouse;
    let ghost start: Leftovers = leftovers(*ms);
    let mut i: usize = 0;
    while i < steps.len()
        invariant
            i <= steps@.len(),
            motions@.len() == steps@.len(),
            moves@ == moved(steps@, motions@, *rp, *least, start, i as int).0,
            (Leftovers { stick: left_of(stick), gyro: left_of(gyro), touch: left_of(touch) })
                == moved(steps@, motions@, *rp, *least, start, i as int).1,
        decreases steps@.len() - i,
    {
        let mut by: (i32, i32) = (0, 0);
        if let KbmStep::Move(input) = steps[i] {
            let changed: bool = match input {
                MoveInput::Touch { prev, cur } => touch_delta(&prev, &cur).is_none(),
                _ => false,
            };
            if changed {
                touch.reset();
            } else if let Some(m) = motions[i] {
                let cfg: CarryCfg = carry_for(input, rp, least);
                match input {
                    MoveInput::Stick { .. } => {
                        by = stick.finalize(m.x, m.y, &cfg);
                    },
                    MoveInput::Gyro { .. } => {
                        by = gyro.finalize(m.x, m.y, &cfg);
                    },
                    MoveInput::Touch { .. } => {
                        by = touch.finalize(m.x, m.y, &cfg);
                    },
                }
            }
        }
        moves.push(by);
        i = i + 1;
    }
    proof {
        one_move_per_step(steps@, motions@, *rp, *least, start, i as int);
    }
    ms.stick_mouse = stick;
    ms.gyro_mouse = gyro;
    ms.touch_mouse = touch;
    finish_batch(steps, &moves)
}

/// Every step has its entry in the list of moves.
pub proof fn one_move_per_step(
    steps: Seq<KbmStep>,
    motions: Seq<Option<MouseMotion>>,
    rp: ResolvedProfile,
    least: LeastMotions,
    start: Leftovers,
    n: int,
)
    requires
        n >= 0,
    ensures
        moved(steps, motions, rp, least, start, n).0.len() == n,
    decreases n,
{
    if n > 0 {
        one_move_per_step(steps, motions, rp, least, start, n - 1);
    }
}

/// A finger that was not there before moves nothing, wherever it is put down.
pub proof fn touching_down_never_jumps(prev: TouchContact, cur: TouchContact)
    requires
        !prev.is_active || !cur.is_active || prev.id != cur.id,
    ensures
        finger_delta(prev, cur) is None,
{
}

/// Turning an axis of motion from the sticks over turns that axis of the move over, leaves the other
/// axis and what is left over as they are, and touches no other source.
pub proof fn mouse_inversion_turns_its_axis(
    input: MoveInput,
    m: MouseMotion,
    rp: ResolvedProfile,
    least: LeastMotions,
    start: Leftovers,
)
    requires
        input is Stick,
        !finger_changed(input),
    ensures
        ({
            let steps = seq![KbmStep::Move(input)];
            let motions = seq![Some(m)];
            let plain = ResolvedProfile {
                mouse: MouseSettings { invert_x: false, invert_y: false, ..rp.mouse },
                ..rp
            };
            let over = ResolvedProfile {
                mouse: MouseSettings { invert_x: false, invert_y: true, ..rp.mouse },
                ..rp
            };
            let aside = ResolvedProfile {
                mouse: MouseSettings { invert_x: true, invert_y: false, ..rp.mouse },
                ..rp
            };
            let (a, rest) = moved(steps, motions, plain, least, start, 1);
            let (b, rest_over) = moved(steps, motions, over, least, start, 1);
            let (c, rest_aside) = moved(steps, motions, aside, least, start, 1);
            &&& a.len() == 1 && b.len() == 1 && c.len() == 1
            &&& rest_over == rest && rest_aside == rest
            &&& b[0].0 == a[0].0 && (a[0].1 > i32::MIN ==> b[0].1 == -a[0].1)
            &&& c[0].1 == a[0].1 && (a[0].0 > i32::MIN ==> c[0].0 == -a[0].0)
        }),
{
    let steps = seq![KbmStep::Move(input)];
    let motions = seq![Some(m)];
    reveal_with_fuel(moved, 2);
    assert(steps[0] == KbmStep::Move(input) && motions[0] == Some(m));
}

/// Turning an axis of motion from the gyro over turns that axis of the move over, leaves the other
/// axis and what is left over as they are, and touches no other source.
pub proof fn gyro_inversion_turns_its_axis(
    input: MoveInput,
    m: MouseMotion,
    rp: ResolvedProfile,
    least: LeastMotions,
    start: Leftovers,
)
    requires
        input is Gyro,
        !finger_changed(input),
    ensures
        ({
            let steps = seq![KbmStep::Move(input)];
            let motions = seq![Some(m)];
            let plain = ResolvedProfile {
                gyro: GyroSettings { invert_x: false, invert_y: false, ..rp.gyro },
                ..rp
            };
            let over = ResolvedProfile {
                gyro: GyroSettings { invert_x: false, invert_y: true, ..rp.gyro },
                ..rp
            };
            let aside = ResolvedProfile {
                gyro: GyroSettings { invert_x: true, invert_y: false, ..rp.gyro },
                ..rp
            };
            let (a, rest) = moved(steps, motions, plain, least, start, 1);
            let (b, rest_over) = moved(steps, motions, over, least, start, 1);
            let (c, rest_aside) = moved(steps, motions, aside, least, start, 1);
            &&& a.len() == 1 && b.len() == 1 && c.len() == 1
            &&& rest_over == rest && rest_aside == rest
            &&& b[0].0 == a[0].0 && (a[0].1 > i32::MIN ==> b[0].1 == -a[0].1)
            &&& c[0].1 == a[0].1 && (a[0].0 > i32::MIN ==> c[0].0 == -a[0].0)
        }),
{
    let steps = seq![KbmStep::Move(input)];
    let motions = seq![Some(m)];
    reveal_with_fuel(moved, 2);
    assert(steps[0] == KbmStep::Move(input) && motions[0] == Some(m));
}

/// Turning an axis of motion from the touchpad over turns that axis of the move over, leaves the other
/// axis and what is left over as they are, and touches no other source.
pub proof fn touchpad_inversion_turns_its_axis(
    input: MoveInput,
    m: MouseMotion,
    rp: ResolvedProfile,
    least: LeastMotions,
    start: Leftovers,
)
    requires
        input is Touch,
        !finger_changed(input),
    ensures
        ({
            let steps = seq![KbmStep::Move(input)];
            let motions = seq![Some(m)];
            let plain = ResolvedProfile {
                touchpad: TouchpadSettings { invert_x: false, invert_y: false, ..rp.touchpad },
                ..rp
            };
            let over = ResolvedProfile {
                touchpad: TouchpadSettings { invert_x: false, invert_y: true, ..rp.touchpad },
                ..rp
            };
            let aside = ResolvedProfile {
                touchpad: TouchpadSettings { invert_x: true, invert_y: false, ..rp.touchpad },
                ..rp
            };
            let (a, rest) = moved(steps, motions, plain, least, start, 1);
            let (b, rest_over) = moved(steps, motions, over, least, start, 1);
            let (c, rest_aside) = moved(steps, motions, aside, least, start, 1);
            &&& a.len() == 1 && b.len() == 1 && c.len() == 1
            &&& rest_over == rest && rest_aside == rest
            &&& b[0].0 == a[0].0 && (a[0].1 > i32::MIN ==> b[0].1 == -a[0].1)
            &&& c[0].1 == a[0].1 && (a[0].0 > i32::MIN ==> c[0].0 == -a[0].0)
        }),
{
    let steps = seq![KbmStep::Move(input)];
    let motions = seq![Some(m)];
    reveal_with_fuel(moved, 2);
    assert(steps[0] == KbmStep::Move(input) && motions[0] == Some(m));
}

/// A motion moves the mouse the way it points: sideways by the whole pixels of its horizontal part,
/// down by those of its vertical part, where nothing is carried, nothing is turned over and no
/// least motion is asked for. What is short of a pixel is left over.
pub proof fn motion_moves_its_way(
    input: MoveInput,
    m: MouseMotion,
    rp: ResolvedProfile,
    least: LeastMotions,
    start: Leftovers,
)
    requires
        !finger_changed(input),
        input is Stick ==> start.stick == (0int, 0int) && least.stick is None && !rp.mouse.invert_x
            && !rp.mouse.invert_y,
        input is Gyro ==> start.gyro == (0int, 0int) && least.gyro is None && !rp.gyro.invert_x
            && !rp.gyro.invert_y,
        input is Touch ==> start.touch == (0int, 0int) && least.touch is None
            && !rp.touchpad.invert_x && !rp.touchpad.invert_y,
        -200_000_000_000 < m.x.hundredths < 200_000_000_000,
        -200_000_000_000 < m.y.hundredths < 200_000_000_000,
    ensures
        ({
            let (a, rest) = moved(
                seq![KbmStep::Move(input)],
                seq![Some(m)],
                rp,
                least,
                start,
                1,
            );
            let left = match input {
                MoveInput::Stick { .. } => rest.stick,
                MoveInput::Gyro { .. } => rest.gyro,
                MoveInput::Touch { .. } => rest.touch,
            };
            let (dx, dy) = (a[0].0 as int, a[0].1 as int);
            &&& a.len() == 1
            &&& 100 * dx + left.0 == m.x.hundredths && -100 < left.0 < 100
            &&& 100 * dy + left.1 == m.y.hundredths && -100 < left.1 < 100
            &&& m.x.hundredths >= 0 ==> dx >= 0 && left.0 >= 0
            &&& m.x.hundredths <= 0 ==> dx <= 0 && left.0 <= 0
            &&& m.y.hundredths >= 0 ==> dy >= 0 && left.1 >= 0
            &&& m.y.hundredths <= 0 ==> dy <= 0 && left.1 <= 0
        }),
{
    let steps = seq![KbmStep::Move(input)];
    let motions = seq![Some(m)];
    reveal_with_fuel(moved, 2);
    assert(steps[0] == KbmStep::Move(input) && motions[0] == Some(m));
}

/// The sources keep apart: a step changes what its own source has left over and nothing else, an
/// event changes nothing, and a finger that is lifted or changed drops what the touchpad had left
/// over and moves nothing.
pub proof fn sources_keep_apart(
    steps: Seq<KbmStep>,
    motions: Seq<Option<MouseMotion>>,
    rp: ResolvedProfile,
    least: LeastMotions,
    start: Leftovers,
    n: int,
)
    requires
        0 <= n < steps.len(),
        motions.len() == steps.len(),
    ensures
        ({
            let (before, left) = moved(steps, motions, rp, least, start, n);
            let (after, rest) = moved(steps, motions, rp, least, start, n + 1);
            &&& after.len() == before.len() + 1 && after.drop_last() =~= before
            &&& steps[n] is Event ==> rest == left && after.last() == (0i32, 0i32)
            &&& steps[n] matches KbmStep::Move(input) ==> {
                &&& !(input is Stick) ==> rest.stick == left.stick
                &&& !(input is Gyro) ==> rest.gyro == left.gyro
                &&& !(input is Touch) ==> rest.touch == left.touch
                &&& finger_changed(input) ==> rest.touch == (0int, 0int) && after.last() == (
                    0i32,
                    0i32,
                )
                &&& motions[n] is None && !finger_changed(input) ==> rest == left && after.last()
                    == (0i32, 0i32)
            }
            &&& moved(steps, motions, rp, least, start, 0).1 == start
        }),
{
}

/// Each source is held to its own least motion, and turned over as its own settings say.
pub proof fn sources_have_their_own_rules(
    input: MoveInput,
    rp: ResolvedProfile,
    least: LeastMotions,
)
    ensures
        ({
            let c = carry_of(input, rp, least);
            &&& input is Stick ==> c.least_sq == least.stick && c.invert_x == rp.mouse.invert_x
                && c.invert_y == rp.mouse.invert_y
            &&& input is Gyro ==> c.least_sq == least.gyro && c.invert_x == rp.gyro.invert_x
                && c.invert_y == rp.gyro.invert_y
            &&& input is Touch ==> c.least_sq == least.touch && c.invert_x == rp.touchpad.invert_x
                && c.invert_y == rp.touchpad.invert_y
        }),
{
}

} // verus!
