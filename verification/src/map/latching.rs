//! How latched keys behave from report to report.
//!
//! A latched key turns over once per press, and a press lasts as long as one of the controls that
//! latch the key is on.

use vstd::prelude::*;

use crate::input::control::{all_is_dense, control_at, Control, CONTROL_COUNT};
use crate::map::binding::BindTarget;
use crate::map::engine::{latch_get, latch_set, KbmStep, Report, VK_LATCH_CAP};
use crate::output::kbm::KbmEvent;

verus! {

/// Whether a latch has no room for a key.
pub open spec fn latch_refuses(m: Map<u16, bool>, vk: u16) -> bool {
    !m.dom().contains(vk) && m.dom().len() >= VK_LATCH_CAP
}

/// A latch that has no room for a key has none after another key is set.
proof fn refusing_goes_on(m: Map<u16, bool>, vk: u16, other: u16, on: bool)
    requires
        latch_refuses(m, vk),
    ensures
        latch_refuses(latch_set(m, vk, on), vk),
        other != vk ==> latch_refuses(latch_set(m, other, on), vk),
{
    if m.dom().contains(other) {
        assert(m.insert(other, on).dom() =~= m.dom());
    }
}

/// Whether no control binds a key that is not latched.
pub open spec fn only_latched(rep: Report, vk: u16) -> bool {
    forall|c: Control|
        #[trigger] rep.bind(c) matches BindTarget::Key { vk: bound, kind } ==> bound != vk
            || kind.toggle
}

/// Whether a step is an event of a key.
pub open spec fn is_key_step(step: KbmStep, vk: u16) -> bool {
    step matches KbmStep::Event(e) && e matches KbmEvent::Key { vk: sent, .. } && sent == vk
}

/// A key that has answered its press is left alone by the first `n` controls.
proof fn answered_key_rests(rep: Report, vk: u16, n: int)
    requires
        latch_get(rep.memory.pressed_once@, vk),
        0 <= n <= CONTROL_COUNT,
    ensures
        latch_get(rep.progress(n).pressed_once, vk),
        latch_get(rep.progress(n).toggle, vk) == latch_get(rep.memory.toggle@, vk),
        only_latched(rep, vk) ==> forall|k: int|
            0 <= k < rep.progress(n).steps.len() ==> !is_key_step(
                #[trigger] rep.progress(n).steps[k],
                vk,
            ),
    decreases n,
{
    if n > 0 {
        answered_key_rests(rep, vk, n - 1);
        let b = rep.bind(control_at(n - 1));
    }
}

/// A pressed key keeps its mark while the first `n` controls let go of theirs.
proof fn pressed_key_keeps_its_mark(rep: Report, vk: u16, n: int)
    requires
        rep.holds(vk),
        0 <= n <= CONTROL_COUNT,
    ensures
        latch_get(rep.settled(n), vk) == latch_get(rep.settled(0), vk),
        latch_refuses(rep.settled(0), vk) ==> latch_refuses(rep.settled(n), vk),
    decreases n,
{
    if n > 0 {
        pressed_key_keeps_its_mark(rep, vk, n - 1);
        if let BindTarget::Key { vk: bound, kind } = rep.bind(control_at(n - 1)) {
            if kind.toggle && !rep.holds(bound) && latch_refuses(rep.settled(n - 1), vk) {
                refusing_goes_on(rep.settled(n - 1), vk, bound, false);
            }
        }
    }
}

/// While a control that latches a key stays on, the key rests: after the report that answered the
/// press, whatever the other controls do, its latch is unchanged, the press counts as answered,
/// and it gets no event, unless it is also bound as a key that is not latched.
pub proof fn held_latch_rests(rep: Report, vk: u16)
    requires
        rep.holds(vk),
        latch_get(rep.memory.pressed_once@, vk),
    ensures
        latch_get(rep.progress(CONTROL_COUNT as int).toggle, vk) == latch_get(
            rep.memory.toggle@,
            vk,
        ),
        latch_get(rep.marks_after(), vk),
        only_latched(rep, vk) ==> forall|k: int|
            0 <= k < rep.steps().len() ==> !is_key_step(#[trigger] rep.steps()[k], vk),
{
    answered_key_rests(rep, vk, CONTROL_COUNT as int);
    pressed_key_keeps_its_mark(rep, vk, CONTROL_COUNT as int);
}

/// Whether a step turns a key up or down.
pub open spec fn turns(step: KbmStep, vk: u16, down: bool) -> bool {
    step matches KbmStep::Event(e) && e matches KbmEvent::Key { vk: sent, down: way, .. } && sent
        == vk && way == down
}

/// Whether one of the first `n` controls latches a key and is on.
spec fn pressed_within(rep: Report, vk: u16, n: int) -> bool {
    exists|j: int| 0 <= j < n && rep.latches(#[trigger] control_at(j), vk) && rep.on(control_at(j))
}

/// How a fresh press of a latched key stands after the first `n` controls: nothing has happened to
/// it, or it has been answered once, as far as the two latches have room for it.
spec fn answered_once(rep: Report, vk: u16, n: int) -> bool {
    let p = rep.progress(n);
    let was = latch_get(rep.memory.toggle@, vk);
    if pressed_within(rep, vk, n) {
        ||| latch_refuses(p.pressed_once, vk)
        ||| {
            &&& latch_get(p.pressed_once, vk)
            &&& latch_refuses(p.toggle, vk) || latch_get(p.toggle, vk) == !was
            &&& exists|k: int| 0 <= k < p.steps.len() && turns(#[trigger] p.steps[k], vk, !was)
        }
    } else {
        latch_get(p.toggle, vk) == was && !latch_get(p.pressed_once, vk)
    }
}

/// A step that turns a key is not lost when another one follows.
proof fn step_is_kept(steps: Seq<KbmStep>, step: KbmStep, vk: u16, down: bool)
    requires
        exists|k: int| 0 <= k < steps.len() && turns(#[trigger] steps[k], vk, down),
    ensures
        exists|k: int|
            0 <= k < steps.push(step).len() && turns(#[trigger] steps.push(step)[k], vk, down),
{
    let k = choose|k: int| 0 <= k < steps.len() && turns(#[trigger] steps[k], vk, down);
    assert(turns(steps.push(step)[k], vk, down));
}

/// The first controls answer a fresh press at most once.
proof fn fresh_press_is_answered(rep: Report, vk: u16, n: int)
    requires
        !latch_get(rep.memory.pressed_once@, vk),
        0 <= n <= CONTROL_COUNT,
    ensures
        answered_once(rep, vk, n),
    decreases n,
{
    if n > 0 {
        fresh_press_is_answered(rep, vk, n - 1);
        let c = control_at(n - 1);
        let p = rep.progress(n - 1);
        let q = rep.progress(n);
        let was = latch_get(rep.memory.toggle@, vk);
        assert(q == rep.act(p, c));
        let presses = rep.latches(c, vk) && rep.on(c);
        assert(pressed_within(rep, vk, n) == (pressed_within(rep, vk, n - 1) || presses)) by {
            if pressed_within(rep, vk, n - 1) {
                let j = choose|j: int|
                    0 <= j < n - 1 && rep.latches(#[trigger] control_at(j), vk) && rep.on(control_at(j));
                assert(rep.latches(control_at(j), vk));
            }
        }
        if q.steps != p.steps {
            assert(q.steps == p.steps.push(q.steps.last()));
            if exists|k: int| 0 <= k < p.steps.len() && turns(#[trigger] p.steps[k], vk, !was) {
                step_is_kept(p.steps, q.steps.last(), vk, !was);
            }
        }
        if let BindTarget::Key { vk: bound, kind } = rep.bind(c) {
            if kind.toggle && rep.on(c) && !latch_get(p.pressed_once, bound) {
                let down = !latch_get(p.toggle, bound);
                if latch_refuses(p.pressed_once, vk) {
                    refusing_goes_on(p.pressed_once, vk, bound, true);
                }
                if latch_refuses(p.toggle, vk) {
                    refusing_goes_on(p.toggle, vk, bound, down);
                }
                if bound == vk {
                    assert(turns(q.steps.last(), vk, down));
                }
            }
            if kind.toggle && !rep.on(c) && latch_refuses(p.pressed_once, vk) {
                refusing_goes_on(p.pressed_once, vk, bound, latch_get(p.pressed_once, bound));
            }
        }
    }
}

/// The first report of a press turns a latched key over and says so: whichever of its controls is
/// on, and however many. The key must be one that both latches can track.
pub proof fn fresh_press_turns_the_latch(rep: Report, vk: u16)
    requires
        rep.holds(vk),
        !latch_get(rep.memory.pressed_once@, vk),
        rep.marks_after().dom().contains(vk),
        rep.progress(CONTROL_COUNT as int).toggle.dom().contains(vk),
    ensures
        latch_get(rep.progress(CONTROL_COUNT as int).toggle, vk) == !latch_get(
            rep.memory.toggle@,
            vk,
        ),
        latch_get(rep.marks_after(), vk),
        exists|k: int|
            0 <= k < rep.steps().len() && turns(
                #[trigger] rep.steps()[k],
                vk,
                !latch_get(rep.memory.toggle@, vk),
            ),
{
    let n = CONTROL_COUNT as int;
    fresh_press_is_answered(rep, vk, n);
    pressed_key_keeps_its_mark(rep, vk, n);
    assert(pressed_within(rep, vk, n)) by {
        all_is_dense();
        let c = choose|c: Control| #[trigger] rep.latches(c, vk) && rep.on(c);
        assert(control_at(c.index()) == c);
    }
    let steps = rep.progress(n).steps;
    let was = latch_get(rep.memory.toggle@, vk);
    let k = choose|k: int| 0 <= k < steps.len() && turns(#[trigger] steps[k], vk, !was);
    assert(turns(rep.steps()[k], vk, !was));
}

/// A press is answered once: where a control that latches a key is on in two reports running, the
/// second leaves its latch as it is and sends it nothing, unless the key is also bound as one that
/// is not latched. The key must be one that can be tracked.
pub proof fn one_turn_per_press(first: Report, next: Report, vk: u16)
    requires
        first.remembered_as(next.memory),
        first.holds(vk),
        next.holds(vk),
        next.memory.pressed_once@.dom().contains(vk),
    ensures
        latch_get(next.progress(CONTROL_COUNT as int).toggle, vk) == latch_get(
            next.memory.toggle@,
            vk,
        ),
        only_latched(next, vk) ==> forall|k: int|
            0 <= k < next.steps().len() ==> !is_key_step(#[trigger] next.steps()[k], vk),
{
    let n = CONTROL_COUNT as int;
    assert(latch_get(next.memory.pressed_once@, vk)) by {
        if latch_get(first.memory.pressed_once@, vk) {
            held_latch_rests(first, vk);
        } else {
            fresh_press_is_answered(first, vk, n);
            pressed_key_keeps_its_mark(first, vk, n);
            assert(pressed_within(first, vk, n)) by {
                all_is_dense();
                let c = choose|c: Control| #[trigger] first.latches(c, vk) && first.on(c);
                assert(control_at(c.index()) == c);
            }
        }
    }
    held_latch_rests(next, vk);
}

/// A key that is bound but not pressed is unmarked once its controls have let go.
proof fn idle_key_is_unmarked(rep: Report, vk: u16, i: int, n: int)
    requires
        !rep.holds(vk),
        rep.latches(control_at(i), vk),
        0 <= i < n <= CONTROL_COUNT,
    ensures
        !latch_get(rep.settled(n), vk),
    decreases n,
{
    if i < n - 1 {
        idle_key_is_unmarked(rep, vk, i, n - 1);
    }
}

/// Letting go ends a press: after a report in which every control that latches a key is off, the
/// next press counts as new.
pub proof fn letting_go_ends_the_press(rep: Report, vk: u16, c: Control)
    requires
        rep.latches(c, vk),
        !rep.holds(vk),
    ensures
        !latch_get(rep.marks_after(), vk),
{
    all_is_dense();
    assert(control_at(c.index()) == c);
    idle_key_is_unmarked(rep, vk, c.index(), CONTROL_COUNT as int);
}

} // verus!
