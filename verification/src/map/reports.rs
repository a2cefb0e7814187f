//! What a report does with each control, stated over readings and results.

use vstd::prelude::*;

use crate::input::control::{all_is_dense, control_at, Control, CONTROL_COUNT};
use crate::input::state::TouchContact;
use crate::map::binding::{BindTarget, MouseMoveSrc, TurboCfg, WheelDir};
use crate::map::engine::{
    first_events, latch_get, latch_set, lowered, own_bit, turbo_spec, wheel_rate, KbmStep, MapState, MoveInput, PadAxis,
    Progress, Report, TurboState,
};
use crate::map::moves::finger_delta;
use crate::output::kbm::KbmEvent;

verus! {

/// A control reads as it is pressed, and its binding is the second one exactly while the control
/// that brings it in reads pressed.
pub proof fn shift_brings_in_the_second_binding(rep: Report, c: Control)
    ensures
        rep.raw()[c.index()] == rep.state.pressed_spec(c, rep.profile.thresholds),
        rep.profile.slot_spec(c).shift_trigger is None ==> rep.bind(c) == rep.profile.slot_spec(
            c,
        ).bind,
        rep.profile.slot_spec(c).shift_trigger matches Some(t) ==> {
            let held = rep.state.pressed_spec(t.control, rep.profile.thresholds);
            &&& held ==> rep.bind(c) == rep.profile.slot_spec(c).shift_bind
            &&& !held ==> rep.bind(c) == rep.profile.slot_spec(c).bind
        },
{
    all_is_dense();
    assert(control_at(c.index()) == c);
    if let Some(t) = rep.profile.slot_spec(c).shift_trigger {
        assert(control_at(t.control.index()) == t.control);
    }
}

/// A control without rapid fire counts as on exactly while it reads pressed; one with rapid fire is
/// never on while it does not.
pub proof fn on_means_pressed(rep: Report, c: Control)
    ensures
        rep.profile.slot_spec(c).turbo is None ==> rep.on(c) == rep.state.pressed_spec(
            c,
            rep.profile.thresholds,
        ),
        rep.on(c) ==> rep.state.pressed_spec(c, rep.profile.thresholds),
{
    all_is_dense();
    assert(control_at(c.index()) == c);
}

/// Rapid fire starts its cycle with the press and keeps it while the press lasts; a control let go
/// is off and has no cycle. Within a cycle it is on while the elapsed share of the period is less
/// than the duty fraction.
pub proof fn rapid_fire_follows_its_cycle(ts: TurboState, t: TurboCfg, now_us: u64)
    requires
        ts.cycle_start_us <= now_us,
    ensures
        ({
            let (idle, off) = turbo_spec(ts, false, t, now_us);
            let (next, on) = turbo_spec(ts, true, t, now_us);
            let since = now_us - ts.cycle_start_us;
            &&& !off && !idle.was_active && idle.cycle_start_us == ts.cycle_start_us
            &&& next.was_active
            &&& ts.was_active ==> next.cycle_start_us == ts.cycle_start_us
            &&& !ts.was_active ==> next.cycle_start_us == now_us
            &&& ts.was_active && since < t.period_us ==> (on <==> since * t.duty_den < t.period_us
                * t.duty_num)
            &&& ts.was_active && t.period_us == 0 ==> (on <==> t.duty_num > 0)
        }),
{
    let since = now_us - ts.cycle_start_us;
    if ts.was_active && since < t.period_us {
        vstd::arithmetic::div_mod::lemma_small_mod(since as nat, t.period_us as nat);
    }
}

/// A control without rapid fire leaves its cycle alone, and one with it advances its own.
pub proof fn cycles_belong_to_their_controls(rep: Report, c: Control)
    ensures
        rep.profile.slot_spec(c).turbo is None ==> rep.turbo_after(c)
            == rep.memory.turbo@[c.index()],
        rep.profile.slot_spec(c).turbo matches Some(t) ==> rep.turbo_after(c) == turbo_spec(
            rep.memory.turbo@[c.index()],
            rep.state.pressed_spec(c, rep.profile.thresholds),
            t,
            rep.now_us,
        ).0,
{
    all_is_dense();
    assert(control_at(c.index()) == c);
}

/// Mouse buttons, macros and special actions answer edges: a press sends the bound one down (or
/// starts it), a release sends it up (or stops it), and a special action answers presses only.
/// Nothing else changes.
pub proof fn edges_are_answered(rep: Report, p: Progress, c: Control)
    ensures
        ({
            let q = rep.act(p, c);
            let rises = rep.on(c) && !rep.memory.prev_active@[c.index()];
            let falls = !rep.on(c) && rep.memory.prev_active@[c.index()];
            &&& rep.bind(c) matches BindTarget::Mouse(btn) ==> {
                &&& rises ==> q.steps == p.steps.push(
                    KbmStep::Event(KbmEvent::MouseButton { btn, down: true }),
                )
                &&& falls ==> q.steps == p.steps.push(
                    KbmStep::Event(KbmEvent::MouseButton { btn, down: false }),
                )
                &&& !rises && !falls ==> q.steps == p.steps
            }
            &&& rep.bind(c) matches BindTarget::Macro(id) ==> {
                &&& rises ==> q.steps == p.steps.push(
                    KbmStep::Event(KbmEvent::Macro { id, start: true }),
                )
                &&& falls ==> q.steps == p.steps.push(
                    KbmStep::Event(KbmEvent::Macro { id, start: false }),
                )
                &&& !rises && !falls ==> q.steps == p.steps
            }
            &&& rep.bind(c) matches BindTarget::Special(id) ==> {
                &&& rises ==> q.steps == p.steps.push(KbmStep::Event(KbmEvent::Special { id }))
                &&& !rises ==> q.steps == p.steps
            }
            &&& rep.bind(c) is Mouse || rep.bind(c) is Macro || rep.bind(c) is Special ==> q.toggle
                == p.toggle && q.pressed_once == p.pressed_once && q.wheel == p.wheel
        }),
{
}

/// A key that is not latched goes down with its control and up with it, as the bound key and in the
/// bound way, and sends nothing between.
pub proof fn keys_follow_their_controls(rep: Report, p: Progress, c: Control)
    requires
        rep.bind(c) matches BindTarget::Key { kind, .. } && !kind.toggle,
    ensures
        ({
            let q = rep.act(p, c);
            let rises = rep.on(c) && !rep.memory.prev_active@[c.index()];
            let falls = !rep.on(c) && rep.memory.prev_active@[c.index()];
            &&& q.toggle == p.toggle && q.pressed_once == p.pressed_once && q.wheel == p.wheel
            &&& !rises && !falls ==> q.steps == p.steps
            &&& rises || falls ==> {
                &&& q.steps.len() == p.steps.len() + 1
                &&& q.steps.drop_last() =~= p.steps
                &&& q.steps.last() matches KbmStep::Event(e)
                &&& e matches KbmEvent::Key { vk, down, kind }
                &&& vk == rep.bind(c)->vk
                &&& down == rises
                &&& kind is ScanCode <==> rep.bind(c)->Key_kind.scan_code
            }
        }),
{
}

/// Targets that only serve elsewhere, or that are not known, do nothing at all, and neither do the
/// targets that drive the pad, as far as keyboard and mouse go.
pub proof fn silent_targets_do_nothing(rep: Report, p: Progress, c: Control)
    requires
        rep.bind(c) is Shift || rep.bind(c) is Unbound || rep.bind(c) is KeyUnbound || rep.bind(
            c,
        ) is Unknown || rep.bind(c) is Passthrough || rep.bind(c) is GamepadButton || rep.bind(
            c,
        ) is GamepadAxis || rep.bind(c) is TouchpadClick,
    ensures
        rep.act(p, c) == p,
        rep.bind(c) is Shift || rep.bind(c) is Unbound || rep.bind(c) is KeyUnbound || rep.bind(
            c,
        ) is Unknown ==> rep.button_mask(c) == 0 && forall|axis: PadAxis|
            #[trigger] rep.axis_write(c, axis) is None,
{
}

/// A source moves the mouse while its control is on: a stick by its own two axes, the touchpad, if
/// it is to move the mouse, by the first finger of the last report and of this one. The wheel and
/// the latches are left alone.
pub proof fn sources_move_the_mouse(rep: Report, p: Progress, c: Control)
    ensures
        ({
            let q = rep.act(p, c);
            &&& rep.bind(c) is MouseMove ==> q.toggle == p.toggle && q.pressed_once
                == p.pressed_once && q.wheel == p.wheel
            &&& rep.bind(c) == BindTarget::MouseMove(MouseMoveSrc::LeftStick) && rep.on(c)
                ==> q.steps == p.steps.push(
                KbmStep::Move(MoveInput::Stick { x: rep.state.lx, y: rep.state.ly }),
            )
            &&& rep.bind(c) == BindTarget::MouseMove(MouseMoveSrc::RightStick) && rep.on(c)
                ==> q.steps == p.steps.push(
                KbmStep::Move(MoveInput::Stick { x: rep.state.rx, y: rep.state.ry }),
            )
            &&& rep.bind(c) == BindTarget::MouseMove(MouseMoveSrc::Touchpad) && rep.on(c)
                && rep.profile.touchpad.as_mouse ==> q.steps == p.steps.push(
                KbmStep::Move(
                    MoveInput::Touch { prev: rep.memory.prev_touch, cur: rep.state.touch@[0] },
                ),
            )
            &&& rep.bind(c) == BindTarget::MouseMove(MouseMoveSrc::Touchpad)
                && !rep.profile.touchpad.as_mouse ==> q.steps == p.steps
            &&& rep.bind(c) == BindTarget::MouseMove(MouseMoveSrc::Unknown) ==> q.steps == p.steps
            &&& rep.bind(c) is MouseMove && !(rep.bind(c)->MouseMove_0 is Gyro) && !rep.on(c)
                ==> q.steps == p.steps
        }),
{
}

/// The gyro moves the mouse sideways by its yaw, or by its roll where the two are exchanged, and
/// upwards as its nose goes up: its pitch counts with its sign turned over.
pub proof fn gyro_turns_the_view(rep: Report, p: Progress, c: Control)
    requires
        rep.turns_gyro(c),
        rep.on(c),
        rep.profile.gyro.mode.active(true),
    ensures
        ({
            let q = rep.act(p, c);
            &&& q.steps.len() == p.steps.len() + 1
            &&& q.steps.last() matches KbmStep::Move(m)
            &&& m matches MoveInput::Gyro { x, z }
            &&& !rep.profile.gyro.swap_yaw_roll ==> x == rep.state.motion.gyro_yaw
            &&& rep.profile.gyro.swap_yaw_roll ==> x == rep.state.motion.gyro_roll
            &&& z.bits != rep.state.motion.gyro_pitch.bits
            &&& z.bits as int % 0x8000_0000_0000_0000 == rep.state.motion.gyro_pitch.bits as int
                % 0x8000_0000_0000_0000
        }),
{
}

/// Three reports of a full press turn the wheel by exactly one notch in the bound direction and
/// leave nothing over: up and right by +120, down and left by -120, up and down on the vertical
/// wheel, right and left on the horizontal one.
pub proof fn three_reports_turn_a_notch_each_way(p: Progress, dir: WheelDir, before: bool)
    requires
        p.wheel == 0,
    ensures
        ({
            let q = p.wheel(dir, true, before, 255).wheel(dir, true, true, 255).wheel(
                dir,
                true,
                true,
                255,
            );
            &&& q.wheel == 0
            &&& q.toggle == p.toggle && q.pressed_once == p.pressed_once
            &&& dir is Up ==> q.steps == p.steps.push(
                KbmStep::Event(KbmEvent::Wheel { vertical: 120, horizontal: 0 }),
            )
            &&& dir is Down ==> q.steps == p.steps.push(
                KbmStep::Event(KbmEvent::Wheel { vertical: (-120) as i32, horizontal: 0 }),
            )
            &&& dir is Right ==> q.steps == p.steps.push(
                KbmStep::Event(KbmEvent::Wheel { vertical: 0, horizontal: 120 }),
            )
            &&& dir is Left ==> q.steps == p.steps.push(
                KbmStep::Event(KbmEvent::Wheel { vertical: 0, horizontal: (-120) as i32 }),
            )
            &&& dir is Unknown ==> q.steps == p.steps
        }),
{
}

/// Opposite directions give opposite turns, on the same reports.
pub proof fn opposite_directions_turn_oppositely(p: Progress, before: bool, travel: int)
    ensures
        ({
            let up = p.wheel(WheelDir::Up, true, before, travel);
            let down = p.wheel(WheelDir::Down, true, before, travel);
            let right = p.wheel(WheelDir::Right, true, before, travel);
            let left = p.wheel(WheelDir::Left, true, before, travel);
            &&& up.wheel == down.wheel == right.wheel == left.wheel
            &&& up.steps.len() == down.steps.len() == right.steps.len() == left.steps.len()
            &&& up.steps.len() > p.steps.len() ==> {
                &&& up.steps.last() matches KbmStep::Event(a)
                &&& down.steps.last() matches KbmStep::Event(b)
                &&& right.steps.last() matches KbmStep::Event(c)
                &&& left.steps.last() matches KbmStep::Event(d)
                &&& a matches KbmEvent::Wheel { vertical: av, horizontal: ah }
                &&& b matches KbmEvent::Wheel { vertical: bv, horizontal: bh }
                &&& c matches KbmEvent::Wheel { vertical: cv, horizontal: ch }
                &&& d matches KbmEvent::Wheel { vertical: dv, horizontal: dh }
                &&& av == -bv && av > 0 && ah == 0 && bh == 0
                &&& ch == -dh && ch > 0 && cv == 0 && dv == 0
            }
        }),
{
}

/// The wheel counts in parts of which 15300 are a notch. A report of a press adds a twentieth of a
/// third of a notch, and the other nineteen in proportion to the travel in 255ths; a whole notch is
/// handed on. Letting go drops what is short of a notch, and a control that was not on leaves it.
pub proof fn wheel_counts_parts_of_a_notch(p: Progress, dir: WheelDir, before: bool, travel: int)
    requires
        0 <= p.wheel < 15_300,
        0 <= travel <= 255,
    ensures
        255 * 60 * wheel_rate(travel) == 15_300 * (255 + 19 * travel),
        ({
            let q = p.wheel(dir, true, before, travel);
            let whole = p.wheel + wheel_rate(travel) >= 15_300;
            &&& 0 <= q.wheel < 15_300
            &&& !whole ==> q.wheel == p.wheel + wheel_rate(travel) && q.steps == p.steps
            &&& whole ==> q.wheel == p.wheel + wheel_rate(travel) - 15_300
            &&& whole && !(dir is Unknown) ==> q.steps.len() == p.steps.len() + 1
        }),
        p.wheel(dir, false, true, travel) == (Progress { wheel: 0, ..p }),
        p.wheel(dir, false, false, travel) == p,
{
}

/// A wheel that a control turns is turned by that control: in the bound direction, while it is on,
/// as far as it is pushed.
pub proof fn wheel_follows_its_control(rep: Report, p: Progress, c: Control)
    ensures
        rep.bind(c) matches BindTarget::MouseWheel(dir) ==> rep.act(p, c) == p.wheel(
            dir,
            rep.on(c),
            rep.memory.prev_active@[c.index()],
            rep.state.travel_spec(c),
        ),
{
}

/// A control that is off presses no pad button. One that is on presses the bound button, clicks the
/// touchpad, or, passing through, presses its own one.
pub proof fn pressing_shows_on_the_pad(rep: Report, c: Control)
    ensures
        !rep.on(c) ==> rep.button_mask(c) == 0,
        rep.on(c) ==> (rep.bind(c) matches BindTarget::GamepadButton(b) ==> rep.button_mask(c)
            == b.bit_spec()),
        rep.on(c) && rep.bind(c) is TouchpadClick ==> rep.button_mask(c) == 0x2_0000,
        rep.on(c) && rep.bind(c) is Passthrough && !(c is L2FullPull) && !(c is R2FullPull) ==> {
            &&& own_bit(c) matches Some(bit) ==> rep.button_mask(c) == bit
            &&& own_bit(c) is None ==> rep.button_mask(c) == 0
        },
        rep.on(c) && rep.bind(c) is Passthrough && c is L2FullPull ==> rep.button_mask(c) == (
        if rep.bind(Control::L2) is Passthrough {
            0x8000u32
        } else {
            0
        }),
        rep.on(c) && rep.bind(c) is Passthrough && c is R2FullPull ==> rep.button_mask(c) == (
        if rep.bind(Control::R2) is Passthrough {
            0x1_0000u32
        } else {
            0
        }),
        !(rep.bind(c) is GamepadButton || rep.bind(c) is TouchpadClick || rep.bind(c) is Passthrough)
            ==> rep.button_mask(c) == 0,
{
}

/// The button that each control passes through to; all the others have none.
pub proof fn controls_have_their_own_buttons(c: Control)
    ensures
        own_bit(Control::Cross) == Some(0x1u32) && own_bit(Control::Circle) == Some(0x2u32),
        own_bit(Control::Square) == Some(0x4u32) && own_bit(Control::Triangle) == Some(0x8u32),
        own_bit(Control::L1) == Some(0x10u32) && own_bit(Control::R1) == Some(0x20u32),
        own_bit(Control::Share) == Some(0x40u32) && own_bit(Control::Options) == Some(0x80u32),
        own_bit(Control::L3) == Some(0x100u32) && own_bit(Control::R3) == Some(0x200u32),
        own_bit(Control::Ps) == Some(0x400u32),
        own_bit(Control::DpadUp) == Some(0x800u32) && own_bit(Control::DpadDown) == Some(0x1000u32),
        own_bit(Control::DpadLeft) == Some(0x2000u32) && own_bit(Control::DpadRight) == Some(
            0x4000u32,
        ),
        own_bit(Control::L2FullPull) == Some(0x8000u32),
        own_bit(Control::R2FullPull) == Some(0x1_0000u32),
        own_bit(Control::TouchButton) == Some(0x2_0000u32),
        own_bit(c) is Some <==> c is Cross || c is Circle || c is Square || c is Triangle || c is L1
            || c is R1 || c is Share || c is Options || c is L3 || c is R3 || c is Ps || c is DpadUp
            || c is DpadDown || c is DpadLeft || c is DpadRight || c is L2FullPull || c is R2FullPull
            || c is TouchButton,
{
}

/// Bits that are gathered are not lost.
proof fn gathered_bits_stay(a: u32, b: u32, m: u32)
    by (bit_vector)
    ensures
        (a | b) & a == a,
        (a | b) & b == b,
        a & m == m ==> (a | b) & m == m,
        (a | b) & m != 0 ==> a & m != 0 || b & m != 0,
{
}

/// Every button that a control presses shows on the pad, and no button shows that none presses.
pub proof fn every_press_shows_and_nothing_else(rep: Report, n: int, m: u32)
    requires
        0 <= n <= CONTROL_COUNT,
    ensures
        forall|k: int|
            0 <= k < n ==> rep.buttons_after(n) & rep.button_mask(#[trigger] control_at(k))
                == rep.button_mask(control_at(k)),
        rep.buttons_after(n) & m != 0 ==> exists|k: int|
            0 <= k < n && rep.button_mask(#[trigger] control_at(k)) & m != 0,
    decreases n,
{
    if n > 0 {
        every_press_shows_and_nothing_else(rep, n - 1, m);
        let a = rep.buttons_after(n - 1);
        let b = rep.button_mask(control_at(n - 1));
        assert forall|k: int| 0 <= k < n implies rep.buttons_after(n) & rep.button_mask(
            #[trigger] control_at(k),
        ) == rep.button_mask(control_at(k)) by {
            gathered_bits_stay(a, b, rep.button_mask(control_at(k)));
        }
        gathered_bits_stay(a, b, m);
        if rep.buttons_after(n) & m != 0 {
            if b & m == 0 {
                let k = choose|k: int|
                    0 <= k < n - 1 && rep.button_mask(#[trigger] control_at(k)) & m != 0;
                assert(rep.button_mask(control_at(k)) & m != 0);
            } else {
                assert(rep.button_mask(control_at(n - 1)) & m != 0);
            }
        }
    } else {
        assert(0u32 & m == 0) by (bit_vector);
    }
}

/// An axis binding pushes its own axis while the control is on: a stick axis to the end of the
/// bound direction, a trigger always to its only end. It writes to no other axis, and to none while
/// the control is off.
pub proof fn axis_bindings_push_to_the_end(rep: Report, c: Control, axis: PadAxis)
    ensures
        rep.bind(c) matches BindTarget::GamepadAxis { axis: bound, dir, .. } ==> {
            let own = (axis is Lx && bound is Lx) || (axis is Ly && bound is Ly) || (axis is Rx
                && bound is Rx) || (axis is Ry && bound is Ry) || (axis is Lt && bound is Lt) || (
            axis is Rt && bound is Rt);
            let trigger = axis is Lt || axis is Rt;
            let w = rep.axis_write(c, axis);
            &&& w is Some <==> own && rep.on(c)
            &&& w matches Some(v) ==> {
                &&& trigger || dir is Pos ==> v.bits == 0x3FF0_0000_0000_0000
                &&& !trigger && dir is Neg ==> v.bits == 0xBFF0_0000_0000_0000
            }
        },
        !(rep.bind(c) is GamepadAxis) && !(rep.bind(c) is Passthrough) ==> rep.axis_write(
            c,
            axis,
        ) is None,
{
}

/// A control that passes through writes its own axis and no other: the halves of a stick axis write
/// the whole axis, unless one of the two halves is bound to something, and the triggers write
/// theirs, whether or not they count as on.
pub proof fn passing_writes_the_own_axis(rep: Report, c: Control, axis: PadAxis)
    requires
        rep.bind(c) is Passthrough,
    ensures
        ({
            let free_lx = rep.bind(Control::LxNeg) is Passthrough && rep.bind(
                Control::LxPos,
            ) is Passthrough;
            let free_ly = rep.bind(Control::LyNeg) is Passthrough && rep.bind(
                Control::LyPos,
            ) is Passthrough;
            let free_rx = rep.bind(Control::RxNeg) is Passthrough && rep.bind(
                Control::RxPos,
            ) is Passthrough;
            let free_ry = rep.bind(Control::RyNeg) is Passthrough && rep.bind(
                Control::RyPos,
            ) is Passthrough;
            let w = rep.axis_write(c, axis);
            &&& axis is Lx ==> w == (if (c is LxNeg || c is LxPos) && free_lx {
                Some(rep.state.lx)
            } else {
                None
            })
            &&& axis is Ly ==> w == (if (c is LyNeg || c is LyPos) && free_ly {
                Some(rep.state.ly)
            } else {
                None
            })
            &&& axis is Rx ==> w == (if (c is RxNeg || c is RxPos) && free_rx {
                Some(rep.state.rx)
            } else {
                None
            })
            &&& axis is Ry ==> w == (if (c is RyNeg || c is RyPos) && free_ry {
                Some(rep.state.ry)
            } else {
                None
            })
            &&& axis is Lt ==> w == (if c is L2 {
                Some(rep.state.l2)
            } else {
                None
            })
            &&& axis is Rt ==> w == (if c is R2 {
                Some(rep.state.r2)
            } else {
                None
            })
        }),
{
    all_is_dense();
    assert(control_at(1) == Control::LxNeg && control_at(2) == Control::LxPos);
    assert(control_at(3) == Control::LyNeg && control_at(4) == Control::LyPos);
    assert(control_at(5) == Control::RxNeg && control_at(6) == Control::RxPos);
    assert(control_at(7) == Control::RyNeg && control_at(8) == Control::RyPos);
}

/// The later of two controls that write to an axis decides it, and an axis that none writes to is
/// at rest.
pub proof fn later_controls_decide_an_axis(rep: Report, axis: PadAxis, n: int)
    requires
        0 <= n < CONTROL_COUNT,
    ensures
        rep.axis_write(control_at(n), axis) matches Some(v) ==> rep.axis_after(axis, n + 1) == v,
        rep.axis_write(control_at(n), axis) is None ==> rep.axis_after(axis, n + 1)
            == rep.axis_after(axis, n),
        rep.axis_after(axis, 0).bits == 0,
        ({
            let out = rep.output();
            let all = CONTROL_COUNT as int;
            &&& out.lx == rep.axis_after(PadAxis::Lx, all) && out.ly == rep.axis_after(
                PadAxis::Ly,
                all,
            )
            &&& out.rx == rep.axis_after(PadAxis::Rx, all) && out.ry == rep.axis_after(
                PadAxis::Ry,
                all,
            )
            &&& out.lt == rep.axis_after(PadAxis::Lt, all) && out.rt == rep.axis_after(
                PadAxis::Rt,
                all,
            )
            &&& out.buttons.0 == rep.buttons_after(all)
        }),
{
}

/// The time since the last report: none on the first one and where the clock has not gone on, the
/// difference elsewhere.
pub proof fn elapsed_is_the_difference(rep: Report)
    ensures
        rep.memory.prev_now_us == 0 ==> rep.elapsed() == 0,
        rep.now_us <= rep.memory.prev_now_us ==> rep.elapsed() == 0,
        0 < rep.memory.prev_now_us < rep.now_us ==> rep.memory.prev_now_us + rep.elapsed()
            == rep.now_us,
{
}

/// The memory after a report: what was on, the first finger, the time, the wheel and the latches as
/// the controls left them; what motion has left over is not touched here.
pub proof fn report_is_kept_in_mind(rep: Report, next: MapState, c: Control)
    requires
        rep.remembered_as(next),
    ensures
        next.prev_active@[c.index()] == rep.on(c),
        next.turbo@[c.index()] == rep.turbo_after(c),
        next.prev_touch == rep.state.touch@[0],
        next.prev_now_us == rep.now_us,
        next.wheel_remainder == rep.progress(CONTROL_COUNT as int).wheel,
        next.toggle@ == rep.progress(CONTROL_COUNT as int).toggle,
        next.stick_mouse == rep.memory.stick_mouse && next.gyro_mouse == rep.memory.gyro_mouse
            && next.touch_mouse == rep.memory.touch_mouse,
{
}

/// The controls act one after the other in table order, from what the last report left.
pub proof fn controls_act_in_order(rep: Report, n: int)
    requires
        0 <= n < CONTROL_COUNT,
    ensures
        rep.progress(n + 1) == rep.act(rep.progress(n), control_at(n)),
        rep.progress(0).steps.len() == 0,
        rep.progress(0).toggle == rep.memory.toggle@,
        rep.progress(0).pressed_once == rep.memory.pressed_once@,
        rep.progress(0).wheel == rep.memory.wheel_remainder,
        rep.steps() == rep.progress(CONTROL_COUNT as int).steps,
{
}

/// Events come out in the order of the steps: an event as itself, a motion as its move, and no event
/// for a motion that moves nothing. A batch holds the first 24 of them.
pub proof fn events_keep_their_order(steps: Seq<KbmStep>, moves: Seq<(i32, i32)>, n: int)
    requires
        0 <= n < steps.len(),
        moves.len() == steps.len(),
    ensures
        ({
            let before = lowered(steps, moves, n);
            let after = lowered(steps, moves, n + 1);
            &&& steps[n] matches KbmStep::Event(e) ==> after == before.push(e)
            &&& steps[n] is Move && moves[n].0 == 0 && moves[n].1 == 0 ==> after == before
            &&& steps[n] is Move && (moves[n].0 != 0 || moves[n].1 != 0) ==> after == before.push(
                KbmEvent::MouseMove { dx: moves[n].0, dy: moves[n].1 },
            )
            &&& lowered(steps, moves, 0).len() == 0
            &&& first_events(after).len() == (if after.len() <= 24 {
                after.len()
            } else {
                24
            })
            &&& forall|i: int|
                0 <= i < first_events(after).len() ==> #[trigger] first_events(after)[i] == after[i]
        }),
{
}

/// A finger moves the mouse only from where the same finger was, and by the way it went.
pub proof fn fingers_move_by_their_way(prev: TouchContact, cur: TouchContact)
    ensures
        ({
            let d = finger_delta(prev, cur);
            &&& d is Some <==> prev.is_active && cur.is_active && prev.id == cur.id
            &&& d matches Some((dx, dy)) ==> prev.x + dx == cur.x && prev.y + dy == cur.y
        }),
{
}

/// Nothing is on, latched, turned or left over in an engine that has seen no report, and no time has
/// passed for it.
pub proof fn fresh_memory_is_empty(ms: MapState, c: Control, vk: u16)
    requires
        ms.clean(),
    ensures
        !ms.prev_active@[c.index()] && !ms.turbo@[c.index()].was_active,
        !latch_get(ms.toggle@, vk) && !latch_get(ms.pressed_once@, vk),
        ms.wheel_remainder == 0 && ms.prev_now_us == 0 && !ms.prev_touch.is_active,
        ms.stick_mouse.horizontal() == 0 && ms.stick_mouse.vertical() == 0,
        ms.gyro_mouse.horizontal() == 0 && ms.gyro_mouse.vertical() == 0,
        ms.touch_mouse.horizontal() == 0 && ms.touch_mouse.vertical() == 0,
{
    all_is_dense();
    assert(0 <= c.index() < CONTROL_COUNT);
}

/// A latch tracks sixteen keys: with fewer it takes a new one, with sixteen it takes none, and a key
/// that it tracks it can always set. No other key is touched.
pub proof fn latches_track_sixteen_keys(m: Map<u16, bool>, vk: u16, other: u16, on: bool)
    ensures
        m.dom().len() < 16 || m.dom().contains(vk) ==> latch_get(latch_set(m, vk, on), vk) == on
            && latch_set(m, vk, on).dom().contains(vk),
        m.dom().len() >= 16 && !m.dom().contains(vk) ==> latch_set(m, vk, on) == m,
        other != vk ==> latch_get(latch_set(m, vk, on), other) == latch_get(m, other),
{
}

} // verus!
