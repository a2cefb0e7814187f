use hyperion_core::input::{Control, ControllerState, Motion, TouchContact};
use hyperion_core::map::engine::VK_LATCH_CAP;
use hyperion_core::map::{
    apply, finish_report, touch_delta, turbo_gate, AxisDir, BindTarget, BindingSlot, GamepadAxis,
    GyroMode, GyroSettings, KbmStep, KeyKind, LeastMotions, MapState, MouseMoveSrc, MoveInput,
    PadBtn, Profile, ResolvedProfile, ShiftTrigger, TouchpadSettings, TurboCfg, TurboState,
    VkLatch, WheelDir,
};
use hyperion_core::mouse_accum::{AxisMotion, MouseMotion};
use hyperion_core::output::{
    KbmBatch, KbmEvent, KeyKind as InjectKind, MouseButton, OutputState, PadButtons,
};
use hyperion_core::scalar::Scalar;

fn scalar(v: f64) -> Scalar {
    Scalar::from_bits(v.to_bits())
}

fn value(s: Scalar) -> f64 {
    f64::from_bits(s.to_bits())
}

fn motion(px: f64) -> AxisMotion {
    let sign = if px > 0.0 {
        1
    } else if px < 0.0 {
        -1
    } else {
        0
    };
    AxisMotion { hundredths: (px * 100.0).trunc() as i64, sign }
}

fn speed(input: &MoveInput, rp: &ResolvedProfile, elapsed_ms: f64) -> Option<MouseMotion> {
    let (x, y) = match input {
        MoveInput::Stick { x, y } => {
            let pace = value(rp.mouse.sensitivity) * 0.48 * elapsed_ms;
            (value(*x) * pace, -value(*y) * pace)
        }
        MoveInput::Gyro { x, z } => {
            let pace = value(rp.gyro.sensitivity) * 0.012 * elapsed_ms;
            (value(*x) * pace, value(*z) * pace)
        }
        MoveInput::Touch { prev, cur } => {
            let (dx, dy) = touch_delta(prev, cur)?;
            let pace = value(rp.touchpad.sensitivity);
            (dx as f64 * pace, dy as f64 * pace)
        }
    };
    Some(MouseMotion { x: motion(x), y: motion(y) })
}

fn run(
    st: &ControllerState,
    rp: &ResolvedProfile,
    ms: &mut MapState,
    now_us: u64,
) -> (OutputState, KbmBatch) {
    let (out, plan) = apply(st, rp, ms, now_us);
    let ms_elapsed = plan.elapsed_us as f64 / 1000.0;
    let motions = plan
        .steps
        .iter()
        .map(|step| match step {
            KbmStep::Move(input) => speed(input, rp, ms_elapsed),
            KbmStep::Event(_) => None,
        })
        .collect();
    let least = LeastMotions { stick: None, gyro: None, touch: None };
    (out, finish_report(&plan.steps, &motions, rp, &least, ms))
}

fn rp_with(c: Control, bind: BindTarget) -> ResolvedProfile {
    let mut p = Profile::default();
    p.bindings.insert(c, BindingSlot::from_bind(bind));
    p.resolve()
}

fn pressed_cross() -> ControllerState {
    ControllerState {
        cross: true,
        ..Default::default()
    }
}

fn rp_slot(c: Control, slot: BindingSlot) -> ResolvedProfile {
    let mut p = Profile::default();
    p.bindings.insert(c, slot);
    p.resolve()
}

fn rp_gyro(gyro: GyroSettings) -> ResolvedProfile {
    let mut p = Profile {
        gyro,
        ..Profile::default()
    };
    p.bindings.insert(
        Control::GyroZPos,
        BindingSlot::from_bind(BindTarget::MouseMove(MouseMoveSrc::Gyro)),
    );
    p.resolve()
}

fn yaw_state(rate: f64) -> ControllerState {
    ControllerState {
        motion: Motion { gyro_yaw: scalar(rate), ..Default::default() },
        ..Default::default()
    }
}

fn active_contact(id: u8, x: u16, y: u16) -> TouchContact {
    TouchContact {
        is_active: true,
        id,
        x,
        y,
    }
}

fn rp_touch(touchpad: TouchpadSettings) -> ResolvedProfile {
    let mut p = Profile {
        touchpad,
        ..Profile::default()
    };
    p.bindings.insert(
        Control::Cross,
        BindingSlot::from_bind(BindTarget::MouseMove(MouseMoveSrc::Touchpad)),
    );
    p.resolve()
}

fn touch_state(c: TouchContact) -> ControllerState {
    ControllerState {
        cross: true,
        touch: [c, TouchContact::default()],
        ..Default::default()
    }
}

#[test]
fn button_to_button_sets_only_target_bit() {
    let rp = rp_with(Control::Cross, BindTarget::GamepadButton(PadBtn::B));
    let mut ms = MapState::default();
    let (out, batch) = run(&pressed_cross(), &rp, &mut ms, 0);
    assert!(out.buttons.has(PadButtons::B), "B should be set");
    assert!(
        !out.buttons.has(PadButtons::A),
        "A must not leak (identity suppressed)"
    );
    assert!(batch.is_empty());
}

#[test]
fn passthrough_button_identity() {
    let rp = ResolvedProfile::default();
    let mut ms = MapState::default();
    let (out, _) = run(&pressed_cross(), &rp, &mut ms, 0);
    assert!(out.buttons.has(PadButtons::A));
    assert!(!out.buttons.has(PadButtons::B));
}

#[test]
fn button_to_key_edges() {
    let rp = rp_with(
        Control::Square,
        BindTarget::Key {
            vk: 0x41,
            kind: KeyKind::hold(),
        },
    );
    let mut ms = MapState::default();

    let down = ControllerState {
        square: true,
        ..Default::default()
    };
    let up = ControllerState::default();

    let (_, b1) = run(&down, &rp, &mut ms, 0);
    assert_eq!(
        b1.as_slice(),
        &[KbmEvent::Key {
            vk: 0x41,
            down: true,
            kind: InjectKind::Virtual
        }]
    );

    let (_, b2) = run(&down, &rp, &mut ms, 1);
    assert!(b2.is_empty(), "no event while held");

    let (_, b3) = run(&up, &rp, &mut ms, 2);
    assert_eq!(
        b3.as_slice(),
        &[KbmEvent::Key {
            vk: 0x41,
            down: false,
            kind: InjectKind::Virtual
        }]
    );
}

#[test]
fn toggle_latched_on_vk() {
    let kind = KeyKind {
        scan_code: false,
        toggle: true,
    };
    let rp = rp_with(Control::Square, BindTarget::Key { vk: 0x42, kind });
    let mut ms = MapState::default();
    let down = ControllerState {
        square: true,
        ..Default::default()
    };
    let up = ControllerState::default();

    let (_, b1) = run(&down, &rp, &mut ms, 0);
    assert_eq!(
        b1.as_slice(),
        &[KbmEvent::Key {
            vk: 0x42,
            down: true,
            kind: InjectKind::Virtual
        }]
    );
    assert!(ms.toggle.get(0x42));
    let (_, b2) = run(&down, &rp, &mut ms, 1);
    assert!(b2.is_empty());
    let (_, b3) = run(&up, &rp, &mut ms, 2);
    assert!(b3.is_empty());
    let (_, b4) = run(&down, &rp, &mut ms, 3);
    assert_eq!(
        b4.as_slice(),
        &[KbmEvent::Key {
            vk: 0x42,
            down: false,
            kind: InjectKind::Virtual
        }]
    );
    assert!(!ms.toggle.get(0x42));
}

#[test]
fn two_controls_one_vk_share_toggle_latch() {
    let kind = KeyKind {
        scan_code: false,
        toggle: true,
    };
    let mut p = Profile::default();
    p.bindings.insert(
        Control::Square,
        BindingSlot::from_bind(BindTarget::Key { vk: 0x55, kind }),
    );
    p.bindings.insert(
        Control::Cross,
        BindingSlot::from_bind(BindTarget::Key { vk: 0x55, kind }),
    );
    let rp = p.resolve();
    let mut ms = MapState::default();

    let sq = ControllerState {
        square: true,
        ..Default::default()
    };
    let (_, _) = run(&sq, &rp, &mut ms, 0);
    assert!(ms.toggle.get(0x55));
    let (_, _) = run(&ControllerState::default(), &rp, &mut ms, 1);
    let cr = ControllerState {
        cross: true,
        ..Default::default()
    };
    let (_, b) = run(&cr, &rp, &mut ms, 2);
    assert_eq!(
        b.as_slice(),
        &[KbmEvent::Key {
            vk: 0x55,
            down: false,
            kind: InjectKind::Virtual
        }]
    );
    assert!(!ms.toggle.get(0x55));
}

#[test]
fn vklatch_overflow_saturates_no_panic() {
    let mut l = VkLatch::new();
    for vk in 0..(VK_LATCH_CAP as u16 + 8) {
        l.set(vk, true);
    }
    for vk in 0..VK_LATCH_CAP as u16 {
        assert!(l.get(vk));
    }
    for vk in VK_LATCH_CAP as u16..(VK_LATCH_CAP as u16 + 8) {
        assert!(!l.get(vk), "overflow keys are untracked, default false");
    }
}

#[test]
fn half_axis_identity_leak_guard() {
    let rp = rp_with(
        Control::LxPos,
        BindTarget::Key {
            vk: 0x41,
            kind: KeyKind::hold(),
        },
    );
    let mut ms = MapState::default();

    let st = ControllerState {
        lx: scalar(-1.0),
        ..Default::default()
    };
    let (out, _) = run(&st, &rp, &mut ms, 0);
    assert_eq!(
        value(out.lx), 0.0,
        "negative half must not leak when the positive half is remapped"
    );
    assert_eq!(value(out.ly), 0.0);

    let st2 = ControllerState {
        lx: scalar(-1.0),
        ry: scalar(0.5),
        ..Default::default()
    };
    let (out2, _) = run(&st2, &rp, &mut ms, 1);
    assert_eq!(value(out2.lx), 0.0);
    assert_eq!(value(out2.ry), 0.5, "an unrelated axis is unaffected");
}

#[test]
fn unremapped_axis_passes_through_both_halves() {
    let rp = ResolvedProfile::default();
    let mut ms = MapState::default();
    let (out_l, _) = run(
        &ControllerState {
            lx: scalar(-0.8),
            ..Default::default()
        },
        &rp,
        &mut ms,
        0,
    );
    assert_eq!(value(out_l.lx), -0.8);
    let (out_r, _) = run(
        &ControllerState {
            lx: scalar(0.6),
            ..Default::default()
        },
        &rp,
        &mut ms,
        1,
    );
    assert_eq!(value(out_r.lx), 0.6);
}

#[test]
fn passthrough_precision_is_exact() {
    let rp = ResolvedProfile::default();
    let mut ms = MapState::default();
    let st = ControllerState {
        lx: scalar(0.123_456_789),
        ry: scalar(-0.987_654_321),
        ..Default::default()
    };
    let (out, _) = run(&st, &rp, &mut ms, 0);
    assert_eq!(value(out.lx), 0.123_456_789);
    assert_eq!(value(out.ry), -0.987_654_321);
}

#[test]
fn analog_to_digital_axis_threshold_55_127() {
    let rp = rp_with(Control::LxPos, BindTarget::GamepadButton(PadBtn::A));
    let mut ms = MapState::default();
    let below = 54.0 / 127.0;
    let above = 56.0 / 127.0;
    let (lo, _) = run(
        &ControllerState {
            lx: scalar(below),
            ..Default::default()
        },
        &rp,
        &mut ms,
        0,
    );
    assert!(!lo.buttons.has(PadButtons::A), "below 55/127 must not fire");
    let (hi, _) = run(
        &ControllerState {
            lx: scalar(above),
            ..Default::default()
        },
        &rp,
        &mut ms,
        1,
    );
    assert!(hi.buttons.has(PadButtons::A), "above 55/127 must fire");
}

#[test]
fn analog_to_digital_trigger_threshold_100_255() {
    let rp = rp_with(Control::L2, BindTarget::GamepadButton(PadBtn::Lb));
    let mut ms = MapState::default();
    let below = 99.0 / 255.0;
    let above = 101.0 / 255.0;
    let (lo, _) = run(
        &ControllerState {
            l2: scalar(below),
            ..Default::default()
        },
        &rp,
        &mut ms,
        0,
    );
    assert!(
        !lo.buttons.has(PadButtons::LB),
        "below 100/255 must not fire"
    );
    let (hi, _) = run(
        &ControllerState {
            l2: scalar(above),
            ..Default::default()
        },
        &rp,
        &mut ms,
        1,
    );
    assert!(hi.buttons.has(PadButtons::LB), "above 100/255 must fire");
}

#[test]
fn trigger_passthrough_is_continuous() {
    let rp = ResolvedProfile::default();
    let mut ms = MapState::default();
    let (out, _) = run(
        &ControllerState {
            l2: scalar(0.42),
            r2: scalar(0.7),
            ..Default::default()
        },
        &rp,
        &mut ms,
        0,
    );
    assert_eq!(value(out.lt), 0.42);
    assert_eq!(value(out.rt), 0.7);
}

#[test]
fn kbm_batch_saturates_without_panic() {
    let mut p = Profile::default();
    let controls = [
        Control::Square,
        Control::Triangle,
        Control::Circle,
        Control::Cross,
        Control::DpadUp,
        Control::DpadDown,
        Control::DpadLeft,
        Control::DpadRight,
        Control::L1,
        Control::R1,
        Control::L3,
        Control::R3,
        Control::Ps,
        Control::Share,
        Control::Options,
    ];
    for (i, &c) in controls.iter().enumerate() {
        p.bindings.insert(
            c,
            BindingSlot::from_bind(BindTarget::Key {
                vk: 0x41 + i as u16,
                kind: KeyKind::hold(),
            }),
        );
    }
    let rp = p.resolve();
    let mut ms = MapState::default();
    let st = ControllerState {
        square: true,
        triangle: true,
        circle: true,
        cross: true,
        dpad_up: true,
        dpad_down: true,
        dpad_left: true,
        dpad_right: true,
        l1: true,
        r1: true,
        l3: true,
        r3: true,
        ps: true,
        share: true,
        options: true,
        ..Default::default()
    };
    let (_, batch) = run(&st, &rp, &mut ms, 0);
    assert_eq!(batch.as_slice().len(), controls.len());
}

#[test]
fn all_passthrough_matches_outputstate_passthrough() {
    let rp = ResolvedProfile::default();
    let mut ms = MapState::default();
    let st = ControllerState {
        lx: scalar(0.25),
        ly: scalar(-0.5),
        rx: scalar(-0.1),
        ry: scalar(0.9),
        l2: scalar(0.3),
        r2: scalar(0.8),
        cross: true,
        circle: true,
        l1: true,
        dpad_left: true,
        options: true,
        ..Default::default()
    };
    let (out, batch) = run(&st, &rp, &mut ms, 0);
    assert_eq!(out, OutputState::passthrough(&st));
    assert!(batch.is_empty(), "passthrough emits no KBM events");
}

#[test]
fn default_mapstate_is_clean() {
    let ms = MapState::default();
    assert!(ms.prev_active.iter().all(|&b| !b));
    assert!(ms.turbo.iter().all(|&t| t == TurboState::default()));
    assert_eq!(ms.wheel_remainder, 0);
    assert!(!ms.toggle.get(0x41));
    assert!(!ms.pressed_once.get(0x41));
    assert_eq!(ms.prev_now_us, 0);
    assert_eq!(ms.stick_mouse.remainder(), (0, 0));
    assert_eq!(ms.gyro_mouse.remainder(), (0, 0));
    assert_eq!(ms.touch_mouse.remainder(), (0, 0));
    assert_eq!(ms.prev_touch, TouchContact::default());
}

#[test]
fn per_control_shift_two_distinct_triggers_simultaneously() {
    let mut p = Profile::default();
    p.bindings.insert(
        Control::Cross,
        BindingSlot {
            bind: BindTarget::GamepadButton(PadBtn::A),
            shift_trigger: Some(ShiftTrigger {
                control: Control::L1,
            }),
            shift_bind: BindTarget::GamepadButton(PadBtn::X),
            turbo: None,
        },
    );
    p.bindings.insert(
        Control::Circle,
        BindingSlot {
            bind: BindTarget::GamepadButton(PadBtn::B),
            shift_trigger: Some(ShiftTrigger {
                control: Control::R1,
            }),
            shift_bind: BindTarget::GamepadButton(PadBtn::Y),
            turbo: None,
        },
    );
    let rp = p.resolve();
    let mut ms = MapState::default();

    let base = ControllerState {
        cross: true,
        circle: true,
        ..Default::default()
    };
    let (out, _) = run(&base, &rp, &mut ms, 0);
    assert!(out.buttons.has(PadButtons::A) && out.buttons.has(PadButtons::B));
    assert!(!out.buttons.has(PadButtons::X) && !out.buttons.has(PadButtons::Y));

    let shifted_x = ControllerState {
        cross: true,
        circle: true,
        l1: true,
        ..Default::default()
    };
    let (out, _) = run(&shifted_x, &rp, &mut ms, 1);
    assert!(out.buttons.has(PadButtons::X), "Cross shifted to X");
    assert!(out.buttons.has(PadButtons::B), "Circle unshifted -> B");
    assert!(!out.buttons.has(PadButtons::A) && !out.buttons.has(PadButtons::Y));

    let both = ControllerState {
        cross: true,
        circle: true,
        l1: true,
        r1: true,
        ..Default::default()
    };
    let (out, _) = run(&both, &rp, &mut ms, 2);
    assert!(
        out.buttons.has(PadButtons::X) && out.buttons.has(PadButtons::Y),
        "both controls shifted simultaneously"
    );
    assert!(!out.buttons.has(PadButtons::A) && !out.buttons.has(PadButtons::B));
}

#[test]
fn analog_shift_trigger_activates_at_trigger_threshold() {
    let slot = BindingSlot {
        bind: BindTarget::GamepadButton(PadBtn::A),
        shift_trigger: Some(ShiftTrigger {
            control: Control::L2,
        }),
        shift_bind: BindTarget::GamepadButton(PadBtn::B),
        turbo: None,
    };
    let rp = rp_slot(Control::Cross, slot);
    let mut ms = MapState::default();

    let lo = ControllerState {
        cross: true,
        l2: scalar(99.0 / 255.0),
        ..Default::default()
    };
    let (out, _) = run(&lo, &rp, &mut ms, 0);
    assert!(out.buttons.has(PadButtons::A) && !out.buttons.has(PadButtons::B));

    let hi = ControllerState {
        cross: true,
        l2: scalar(101.0 / 255.0),
        ..Default::default()
    };
    let (out, _) = run(&hi, &rp, &mut ms, 1);
    assert!(out.buttons.has(PadButtons::B) && !out.buttons.has(PadButtons::A));
}

#[test]
fn turbo_phase_on_on_off_off_with_press_reset() {
    let slot = BindingSlot {
        bind: BindTarget::GamepadButton(PadBtn::A),
        shift_trigger: None,
        shift_bind: BindTarget::Passthrough,
        turbo: Some(TurboCfg {
            period_us: 100,
            duty_num: 1,
            duty_den: 2,
        }),
    };
    let rp = rp_slot(Control::Cross, slot);
    let mut ms = MapState::default();
    let held = ControllerState {
        cross: true,
        ..Default::default()
    };

    let on_at =
        |ms: &mut MapState, t: u64| run(&held, &rp, ms, t).0.buttons.has(PadButtons::A);
    assert!(on_at(&mut ms, 1000), "phase 0 -> ON");
    assert!(on_at(&mut ms, 1025), "phase 25 -> ON");
    assert!(!on_at(&mut ms, 1050), "phase 50 -> OFF");
    assert!(!on_at(&mut ms, 1075), "phase 75 -> OFF");

    let released = ControllerState::default();
    let _ = run(&released, &rp, &mut ms, 1100);
    assert!(
        on_at(&mut ms, 9999),
        "a fresh press re-anchors the phase to a full ON window"
    );
}

#[test]
fn macro_start_stop_edges() {
    let rp = rp_with(Control::Square, BindTarget::Macro(7));
    let mut ms = MapState::default();
    let down = ControllerState {
        square: true,
        ..Default::default()
    };
    let up = ControllerState::default();

    let (_, b1) = run(&down, &rp, &mut ms, 0);
    assert_eq!(b1.as_slice(), &[KbmEvent::Macro { id: 7, start: true }]);
    let (_, b2) = run(&down, &rp, &mut ms, 1);
    assert!(b2.is_empty());
    let (_, b3) = run(&up, &rp, &mut ms, 2);
    assert_eq!(
        b3.as_slice(),
        &[KbmEvent::Macro {
            id: 7,
            start: false
        }]
    );
}

#[test]
fn special_fires_on_rising_edge_only() {
    let rp = rp_with(Control::Options, BindTarget::Special(3));
    let mut ms = MapState::default();
    let down = ControllerState {
        options: true,
        ..Default::default()
    };
    let up = ControllerState::default();

    let (_, b1) = run(&down, &rp, &mut ms, 0);
    assert_eq!(b1.as_slice(), &[KbmEvent::Special { id: 3 }]);
    let (_, b2) = run(&down, &rp, &mut ms, 1);
    assert!(b2.is_empty());
    let (_, b3) = run(&up, &rp, &mut ms, 2);
    assert!(b3.is_empty());
}

#[test]
fn mouse_button_edges() {
    let rp = rp_with(Control::Cross, BindTarget::Mouse(MouseButton::Left));
    let mut ms = MapState::default();
    let down = pressed_cross();
    let up = ControllerState::default();

    let (_, b1) = run(&down, &rp, &mut ms, 0);
    assert_eq!(
        b1.as_slice(),
        &[KbmEvent::MouseButton {
            btn: MouseButton::Left,
            down: true
        }]
    );
    let (_, b2) = run(&down, &rp, &mut ms, 1);
    assert!(b2.is_empty(), "no event while held");
    let (_, b3) = run(&up, &rp, &mut ms, 2);
    assert_eq!(
        b3.as_slice(),
        &[KbmEvent::MouseButton {
            btn: MouseButton::Left,
            down: false
        }]
    );
}

#[test]
fn mouse_move_from_deflected_stick_with_remainder_carry() {
    let rp = rp_with(
        Control::RxPos,
        BindTarget::MouseMove(MouseMoveSrc::RightStick),
    );
    let mut ms = MapState::default();

    let st = ControllerState {
        rx: scalar(1.0),
        ..Default::default()
    };
    let _ = run(&st, &rp, &mut ms, 1_000);

    let mut saw_move = false;
    let mut t = 6_000u64;
    for _ in 0..8 {
        let (_, b) = run(&st, &rp, &mut ms, t);
        for e in b.as_slice() {
            if let KbmEvent::MouseMove { dx, dy: _ } = e {
                assert!(*dx > 0, "right deflection -> rightward mouse, got dx={dx}");
                saw_move = true;
            }
        }
        t += 5_000;
    }
    assert!(saw_move, "a deflected stick eventually emits a MouseMove");
}

#[test]
fn mouse_move_not_emitted_when_gated_off() {
    let slot = BindingSlot {
        bind: BindTarget::Passthrough,
        shift_trigger: Some(ShiftTrigger {
            control: Control::L1,
        }),
        shift_bind: BindTarget::MouseMove(MouseMoveSrc::RightStick),
        turbo: None,
    };
    let rp = rp_slot(Control::RxPos, slot);
    let mut ms = MapState::default();
    let st = ControllerState {
        rx: scalar(1.0),
        ..Default::default()
    };
    let _ = run(&st, &rp, &mut ms, 1_000);
    let (out, b) = run(&st, &rp, &mut ms, 6_000);
    assert!(
        b.as_slice()
            .iter()
            .all(|e| !matches!(e, KbmEvent::MouseMove { .. })),
        "no mouse-move while the shift trigger is inactive"
    );
    assert_eq!(value(out.rx), 1.0);
}

#[test]
fn mouse_wheel_accumulates_to_a_notch() {
    let rp = rp_with(Control::DpadUp, BindTarget::MouseWheel(WheelDir::Up));
    let mut ms = MapState::default();
    let down = ControllerState {
        dpad_up: true,
        ..Default::default()
    };

    let mut ticks = 0i32;
    for t in 0..12u64 {
        let (_, b) = run(&down, &rp, &mut ms, t);
        for e in b.as_slice() {
            if let KbmEvent::Wheel {
                vertical,
                horizontal,
            } = e
            {
                assert_eq!(*horizontal, 0);
                assert!(*vertical > 0, "wheel up -> positive vertical");
                ticks += vertical / 120;
            }
        }
    }
    assert!(
        (3..=4).contains(&ticks),
        "12 reports at 1/3-notch each -> ~4 notches, got {ticks}"
    );

    let (_, _) = run(&ControllerState::default(), &rp, &mut ms, 12);
    assert_eq!(ms.wheel_remainder, 0);
}

#[test]
fn a_half_pushed_stick_turns_the_wheel_slower() {
    let rp = rp_with(Control::LxPos, BindTarget::MouseWheel(WheelDir::Right));
    let notches = |lx: f64| {
        let mut ms = MapState::default();
        let st = ControllerState { lx: scalar(lx), ..Default::default() };
        assert_eq!(st.travel(Control::LxPos), (lx * 255.0).round() as u8);
        let mut turned = 0;
        for t in 0..60u64 {
            let (_, b) = run(&st, &rp, &mut ms, t);
            for e in b.as_slice() {
                assert_eq!(*e, KbmEvent::Wheel { vertical: 0, horizontal: 120 });
                turned += 1;
            }
        }
        turned
    };
    assert_eq!(notches(1.0), 20);
    assert_eq!(notches(0.5), 10);
}

#[test]
fn gamepad_axis_digital_push() {
    let rp = rp_with(
        Control::Cross,
        BindTarget::GamepadAxis {
            axis: GamepadAxis::Rx,
            dir: AxisDir::Pos,
            full: true,
        },
    );
    let mut ms = MapState::default();
    let (out, _) = run(&pressed_cross(), &rp, &mut ms, 0);
    assert_eq!(value(out.rx), 1.0);
    let (out0, _) = run(&ControllerState::default(), &rp, &mut ms, 1);
    assert_eq!(value(out0.rx), 0.0);
}

#[test]
fn touchpad_click_output_bit() {
    let rp = rp_with(Control::Cross, BindTarget::TouchpadClick);
    let mut ms = MapState::default();
    let (out, _) = run(&pressed_cross(), &rp, &mut ms, 0);
    assert!(out.buttons.has(PadButtons::TOUCHPAD));
}

#[test]
fn turbo_gate_unit_phase() {
    let cfg = TurboCfg {
        period_us: 100,
        duty_num: 1,
        duty_den: 4,
    };
    let mut ts = TurboState::default();
    assert!(turbo_gate(&mut ts, true, cfg, 1000), "phase 0 -> ON");
    assert!(turbo_gate(&mut ts, true, cfg, 1024), "phase 24 -> ON");
    assert!(!turbo_gate(&mut ts, true, cfg, 1025), "phase 25 -> OFF");
    assert!(!turbo_gate(&mut ts, true, cfg, 1099), "phase 99 -> OFF");
    assert!(
        turbo_gate(&mut ts, true, cfg, 1100),
        "phase 0 (next cycle) -> ON"
    );
    assert!(!turbo_gate(&mut ts, false, cfg, 1200));
    assert!(!ts.was_active);
}

#[test]
fn shifted_half_axis_suppresses_identity_pair() {
    let slot = BindingSlot {
        bind: BindTarget::Passthrough,
        shift_trigger: Some(ShiftTrigger {
            control: Control::L1,
        }),
        shift_bind: BindTarget::Key {
            vk: 0x41,
            kind: KeyKind::hold(),
        },
        turbo: None,
    };
    let rp = rp_slot(Control::LxPos, slot);
    let mut ms = MapState::default();

    let left = ControllerState {
        lx: scalar(-0.8),
        ..Default::default()
    };
    let (out, _) = run(&left, &rp, &mut ms, 0);
    assert_eq!(value(out.lx), -0.8, "unshifted axis passes through");

    let left_shift = ControllerState {
        lx: scalar(-0.8),
        l1: true,
        ..Default::default()
    };
    let (out, _) = run(&left_shift, &rp, &mut ms, 1);
    assert_eq!(value(out.lx), 0.0, "shifted half remaps -> both halves neutral");
}

#[test]
fn gyro_mode_off_is_inert() {
    let rp = rp_gyro(GyroSettings::default());
    let mut ms = MapState::default();
    let st = yaw_state(5.0);
    let _ = run(&st, &rp, &mut ms, 1_000);
    let (_, b) = run(&st, &rp, &mut ms, 6_000);
    assert!(
        b.as_slice()
            .iter()
            .all(|e| !matches!(e, KbmEvent::MouseMove { .. })),
        "GyroMode::Off must emit no gyro mouse motion"
    );
}

#[test]
fn gyro_always_on_scales_and_moves_right() {
    let rp = rp_gyro(GyroSettings {
        mode: GyroMode::AlwaysOn,
        sensitivity: scalar(80.0),
        deadzone: scalar(0.0),
        jitter_comp: false,
        ..GyroSettings::default()
    });
    let mut ms = MapState::default();
    let st = yaw_state(5.0);
    let _ = run(&st, &rp, &mut ms, 1_000);

    let mut saw_right = false;
    let mut t = 6_000u64;
    for _ in 0..8 {
        let (_, b) = run(&st, &rp, &mut ms, t);
        for e in b.as_slice() {
            if let KbmEvent::MouseMove { dx, dy } = e {
                assert!(*dx > 0, "rightward yaw -> dx>0, got {dx}");
                assert_eq!(*dy, 0, "pure yaw -> no vertical, got {dy}");
                saw_right = true;
            }
        }
        t += 5_000;
    }
    assert!(
        saw_right,
        "AlwaysOn gyro yaw eventually emits a rightward MouseMove"
    );
}

#[test]
fn gyro_invert_x_flips_direction() {
    let base = GyroSettings {
        mode: GyroMode::AlwaysOn,
        sensitivity: scalar(80.0),
        deadzone: scalar(0.0),
        jitter_comp: false,
        ..GyroSettings::default()
    };
    let inv = GyroSettings {
        invert_x: true,
        ..base
    };
    let drive = |rp: &ResolvedProfile| -> i32 {
        let mut ms = MapState::default();
        let st = yaw_state(5.0);
        let _ = run(&st, rp, &mut ms, 1_000);
        let mut sum = 0;
        let mut t = 6_000u64;
        for _ in 0..8 {
            let (_, b) = run(&st, rp, &mut ms, t);
            for e in b.as_slice() {
                if let KbmEvent::MouseMove { dx, .. } = e {
                    sum += *dx;
                }
            }
            t += 5_000;
        }
        sum
    };
    let normal = drive(&rp_gyro(base));
    let inverted = drive(&rp_gyro(inv));
    assert!(normal > 0, "normal yaw moves right");
    assert!(inverted < 0, "invert_x flips it left, got {inverted}");
}

#[test]
fn gyro_pitch_up_moves_screen_up() {
    let mut p = Profile {
        gyro: GyroSettings {
            mode: GyroMode::AlwaysOn,
            sensitivity: scalar(80.0),
            deadzone: scalar(0.0),
            jitter_comp: false,
            ..GyroSettings::default()
        },
        ..Profile::default()
    };
    p.bindings.insert(
        Control::Cross,
        BindingSlot::from_bind(BindTarget::MouseMove(MouseMoveSrc::Gyro)),
    );
    let rp = p.resolve();
    let mut ms = MapState::default();
    let st = ControllerState {
        cross: true,
        motion: Motion {
            gyro_pitch: scalar(5.0),
            ..Default::default()
        },
        ..Default::default()
    };
    let _ = run(&st, &rp, &mut ms, 1_000);
    let mut saw_up = false;
    let mut t = 6_000u64;
    for _ in 0..8 {
        let (_, b) = run(&st, &rp, &mut ms, t);
        for e in b.as_slice() {
            if let KbmEvent::MouseMove { dx, dy } = e {
                assert_eq!(*dx, 0, "pure pitch -> no horizontal, got {dx}");
                assert!(*dy < 0, "nose-up pitch -> screen up (dy<0), got {dy}");
                saw_up = true;
            }
        }
        t += 5_000;
    }
    assert!(
        saw_up,
        "AlwaysOn gyro pitch-up eventually emits an upward MouseMove"
    );
}

#[test]
fn gyro_swap_yaw_roll_uses_roll_for_horizontal() {
    let rp = rp_gyro(GyroSettings {
        mode: GyroMode::AlwaysOn,
        sensitivity: scalar(80.0),
        deadzone: scalar(0.0),
        jitter_comp: false,
        swap_yaw_roll: true,
        ..GyroSettings::default()
    });
    let mut ms = MapState::default();
    let st = ControllerState {
        motion: Motion {
            gyro_yaw: scalar(5.0),
            gyro_roll: scalar(5.0),
            ..Default::default()
        },
        ..Default::default()
    };
    let _ = run(&st, &rp, &mut ms, 1_000);
    let mut saw = false;
    let mut t = 6_000u64;
    for _ in 0..8 {
        let (_, b) = run(&st, &rp, &mut ms, t);
        for e in b.as_slice() {
            if let KbmEvent::MouseMove { dx, .. } = e {
                assert!(*dx > 0, "roll drives horizontal when swapped, got {dx}");
                saw = true;
            }
        }
        t += 5_000;
    }
    assert!(saw, "swapped horizontal axis reads roll");
}

#[test]
fn touchpad_as_mouse_off_is_inert() {
    let rp = rp_touch(TouchpadSettings::default());
    let mut ms = MapState::default();
    let _ = run(
        &touch_state(active_contact(1, 100, 100)),
        &rp,
        &mut ms,
        1_000,
    );
    let (_, b) = run(
        &touch_state(active_contact(1, 400, 100)),
        &rp,
        &mut ms,
        6_000,
    );
    assert!(
        b.as_slice()
            .iter()
            .all(|e| !matches!(e, KbmEvent::MouseMove { .. })),
        "as_mouse off must emit no touch mouse motion"
    );
}

#[test]
fn touchpad_as_mouse_drag_moves_cursor() {
    let rp = rp_touch(TouchpadSettings {
        as_mouse: true,
        sensitivity: scalar(1.0),
        jitter_comp: false,
        ..TouchpadSettings::default()
    });
    let mut ms = MapState::default();
    let _ = run(
        &touch_state(active_contact(1, 100, 200)),
        &rp,
        &mut ms,
        1_000,
    );
    let (_, b) = run(
        &touch_state(active_contact(1, 200, 200)),
        &rp,
        &mut ms,
        6_000,
    );
    let mut saw = false;
    for e in b.as_slice() {
        if let KbmEvent::MouseMove { dx, dy } = e {
            assert!(*dx > 0, "rightward drag -> dx>0, got {dx}");
            assert_eq!(*dy, 0, "pure-x drag -> no vertical, got {dy}");
            saw = true;
        }
    }
    assert!(saw, "a same-finger drag emits a MouseMove");
}

#[test]
fn touchpad_as_mouse_two_contacts_emit_delta_with_remainder_carry() {
    let rp = rp_touch(TouchpadSettings {
        as_mouse: true,
        sensitivity: scalar(0.04),
        velocity_offset: scalar(0.0),
        min_threshold: scalar(1.0),
        jitter_comp: false,
        ..TouchpadSettings::default()
    });
    let mut ms = MapState::default();

    let (_, b0) = run(&touch_state(active_contact(1, 0, 0)), &rp, &mut ms, 1_000);
    assert!(
        b0.as_slice()
            .iter()
            .all(|e| !matches!(e, KbmEvent::MouseMove { .. })),
        "touch-down must not jump"
    );

    let xs = [10u16, 20, 30];
    let mut dxs = [0i32; 3];
    let mut t = 6_000u64;
    for (i, &x) in xs.iter().enumerate() {
        let (_, b) = run(&touch_state(active_contact(1, x, 0)), &rp, &mut ms, t);
        for e in b.as_slice() {
            if let KbmEvent::MouseMove { dx, dy } = e {
                assert_eq!(*dy, 0, "pure-x drag -> no vertical");
                dxs[i] = *dx;
            }
        }
        t += 5_000;
    }
    assert_eq!(
        dxs,
        [0, 0, 1],
        "0.4px×3 carries through run() to 0,0,1 (remainder accumulates), got {dxs:?}"
    );
    let h = ms.touch_mouse.remainder().0 as f64 / 100.0;
    assert!(
        (h - 0.2).abs() < 1e-9,
        "carried remainder ≈ 0.2 after the pixel emit, got {h}"
    );
}

#[test]
fn touchpad_touchdown_does_not_jump() {
    let rp = rp_touch(TouchpadSettings {
        as_mouse: true,
        sensitivity: scalar(100.0),
        ..TouchpadSettings::default()
    });
    let mut ms = MapState::default();
    let (_, b) = run(
        &touch_state(active_contact(1, 900, 500)),
        &rp,
        &mut ms,
        1_000,
    );
    assert!(
        b.as_slice()
            .iter()
            .all(|e| !matches!(e, KbmEvent::MouseMove { .. })),
        "touch-down (no prev contact) must not jump the cursor"
    );
}

#[test]
fn default_profile_touch_emits_nothing_passthrough_unchanged() {
    let rp = ResolvedProfile::default();
    let mut ms = MapState::default();
    let st = ControllerState {
        touch: [active_contact(1, 1800, 800), TouchContact::default()],
        lx: scalar(0.3),
        ..Default::default()
    };
    let (out, b) = run(&st, &rp, &mut ms, 1_000);
    assert_eq!(out, OutputState::passthrough(&st));
    assert!(b.is_empty(), "no touch binding -> no KBM events");
}

#[test]
fn default_profile_gyro_emits_nothing_passthrough_unchanged() {
    let rp = ResolvedProfile::default();
    let mut ms = MapState::default();
    let st = ControllerState {
        motion: Motion {
            gyro_yaw: scalar(9.0),
            gyro_pitch: scalar(9.0),
            gyro_roll: scalar(9.0),
            ..Default::default()
        },
        lx: scalar(0.3),
        ..Default::default()
    };
    let (out, b) = run(&st, &rp, &mut ms, 1_000);
    assert_eq!(out, OutputState::passthrough(&st));
    assert!(b.is_empty(), "no gyro binding -> no KBM events");
}

fn rp_shared_latch() -> ResolvedProfile {
    let kind = KeyKind { scan_code: false, toggle: true };
    let mut p = Profile::default();
    for c in [Control::Square, Control::Cross] {
        p.bindings
            .insert(c, BindingSlot::from_bind(BindTarget::Key { vk: 0x55, kind }));
    }
    p.resolve()
}

fn face(square: bool, cross: bool) -> ControllerState {
    ControllerState { square, cross, ..Default::default() }
}

fn latch_edge(down: bool) -> KbmEvent {
    KbmEvent::Key { vk: 0x55, down, kind: InjectKind::Virtual }
}

#[test]
fn an_idle_control_leaves_a_shared_latch_alone() {
    let rp = rp_shared_latch();
    for (square, cross) in [(true, false), (false, true)] {
        let mut ms = MapState::default();
        let (_, b) = run(&face(square, cross), &rp, &mut ms, 0);
        assert_eq!(b.as_slice(), &[latch_edge(true)]);
        for now in 1..6 {
            let (_, b) = run(&face(square, cross), &rp, &mut ms, now);
            assert!(b.is_empty(), "a hold emits nothing after the first report");
            assert!(ms.toggle.get(0x55));
        }
    }
}

#[test]
fn a_shared_press_lasts_until_both_controls_are_off() {
    let rp = rp_shared_latch();
    let mut ms = MapState::default();
    let (_, b) = run(&face(true, false), &rp, &mut ms, 0);
    assert_eq!(b.as_slice(), &[latch_edge(true)]);
    for (now, (square, cross)) in [(true, true), (false, true), (true, true), (true, false)]
        .into_iter()
        .enumerate()
    {
        let (_, b) = run(&face(square, cross), &rp, &mut ms, 1 + now as u64);
        assert!(b.is_empty(), "the key is still pressed");
        assert!(ms.pressed_once.get(0x55));
    }
    let (_, b) = run(&face(false, false), &rp, &mut ms, 5);
    assert!(b.is_empty());
    assert!(!ms.pressed_once.get(0x55));
    let (_, b) = run(&face(true, true), &rp, &mut ms, 6);
    assert_eq!(b.as_slice(), &[latch_edge(false)], "one turn for one press");
    assert!(!ms.toggle.get(0x55));
}

#[test]
fn full_pulls_pass_through_as_clicks() {
    let rp = ResolvedProfile::default();
    let mut ms = MapState::default();
    for (l2_raw, r2_raw) in [(255, 255), (255, 254), (0, 255)] {
        let st = ControllerState {
            l2: scalar(1.0),
            r2: scalar(0.99),
            l2_raw,
            r2_raw,
            touch_button: true,
            share: true,
            ..Default::default()
        };
        let (out, b) = run(&st, &rp, &mut ms, 0);
        assert_eq!(out, OutputState::passthrough(&st));
        assert_eq!(out.buttons.has(PadButtons::L2_CLICK), l2_raw == 255);
        assert_eq!(out.buttons.has(PadButtons::R2_CLICK), r2_raw == 255);
        assert!(b.is_empty());
    }
}

#[test]
fn a_bound_full_pull_does_not_click() {
    let rp = rp_with(Control::L2FullPull, BindTarget::GamepadButton(PadBtn::Lb));
    let mut ms = MapState::default();
    let st = ControllerState { l2_raw: 255, ..Default::default() };
    let (out, _) = run(&st, &rp, &mut ms, 0);
    assert!(out.buttons.has(PadButtons::LB));
    assert!(!out.buttons.has(PadButtons::L2_CLICK));
}

fn gyro_steps(mode: GyroMode, cross: bool) -> Vec<KbmStep> {
    let mut p = Profile {
        gyro: GyroSettings { mode, ..GyroSettings::default() },
        ..Profile::default()
    };
    p.bindings.insert(
        Control::Cross,
        BindingSlot::from_bind(BindTarget::MouseMove(MouseMoveSrc::Gyro)),
    );
    let st = ControllerState {
        cross,
        motion: Motion { gyro_yaw: scalar(5.0), ..Default::default() },
        ..Default::default()
    };
    apply(&st, &p.resolve(), &mut MapState::default(), 1_000).1.steps
}

#[test]
fn the_gyro_moves_the_mouse_as_its_mode_says() {
    let fed = vec![KbmStep::Move(MoveInput::Gyro { x: scalar(5.0), z: scalar(-0.0) })];
    assert_eq!(gyro_steps(GyroMode::AlwaysOn, false), fed);
    assert_eq!(gyro_steps(GyroMode::AlwaysOn, true), fed);
    assert_eq!(gyro_steps(GyroMode::TriggerHeld, false), vec![]);
    assert_eq!(gyro_steps(GyroMode::TriggerHeld, true), fed);
    assert_eq!(gyro_steps(GyroMode::Off, true), vec![]);
}

#[test]
fn a_bound_trigger_does_not_click() {
    let rp = rp_with(Control::L2, BindTarget::GamepadButton(PadBtn::Lb));
    let mut ms = MapState::default();
    let st = ControllerState {
        l2: scalar(1.0),
        r2: scalar(1.0),
        l2_raw: 255,
        r2_raw: 255,
        ..Default::default()
    };
    let (out, _) = run(&st, &rp, &mut ms, 0);
    assert!(out.buttons.has(PadButtons::LB));
    assert!(!out.buttons.has(PadButtons::L2_CLICK), "a bound trigger shows nothing of its own");
    assert!(out.buttons.has(PadButtons::R2_CLICK));
}

#[test]
fn turns_and_full_pulls_turn_the_wheel_at_full_pace() {
    for (c, st) in [
        (Control::GyroZPos, yaw_state(0.5)),
        (
            Control::L2FullPull,
            ControllerState { l2_raw: 255, l2: scalar(0.2), ..Default::default() },
        ),
    ] {
        assert_eq!(st.travel(c), 255);
        let rp = rp_with(c, BindTarget::MouseWheel(WheelDir::Up));
        let mut ms = MapState::default();
        let mut notches = 0;
        for now in 0..3 {
            notches += run(&st, &rp, &mut ms, now).1.as_slice().len();
        }
        assert_eq!(notches, 1, "three reports turn one notch");
        assert_eq!(ms.wheel_remainder, 0);
    }
}

fn gyro_moves(controls: &[Control], st: &ControllerState) -> usize {
    let mut p = Profile {
        gyro: GyroSettings { mode: GyroMode::AlwaysOn, ..GyroSettings::default() },
        ..Profile::default()
    };
    for &c in controls {
        p.bindings
            .insert(c, BindingSlot::from_bind(BindTarget::MouseMove(MouseMoveSrc::Gyro)));
    }
    apply(st, &p.resolve(), &mut MapState::default(), 1_000).1.steps.len()
}

#[test]
fn an_always_on_gyro_moves_once_per_report() {
    let both = [Control::GyroZPos, Control::GyroZNeg];
    assert_eq!(gyro_moves(&both, &yaw_state(5.0)), 1);
    assert_eq!(gyro_moves(&both, &yaw_state(-5.0)), 1);
    assert_eq!(gyro_moves(&both, &yaw_state(0.0)), 1);
    assert_eq!(gyro_moves(&[], &yaw_state(5.0)), 0);
    let two = [Control::Square, Control::Cross];
    assert_eq!(gyro_moves(&two, &face(true, true)), 2);
    assert_eq!(gyro_moves(&two, &face(false, true)), 1);
}

#[test]
fn idle_latched_keys_are_tracked_in_table_order() {
    let controls = [
        Control::L1,
        Control::L3,
        Control::R1,
        Control::R3,
        Control::Square,
        Control::Triangle,
        Control::Circle,
        Control::Cross,
        Control::DpadUp,
        Control::DpadRight,
        Control::DpadDown,
        Control::DpadLeft,
        Control::Ps,
        Control::Share,
        Control::Options,
        Control::Mute,
        Control::TouchButton,
    ];
    let kind = KeyKind { scan_code: false, toggle: true };
    let mut p = Profile::default();
    for (i, c) in controls.into_iter().enumerate() {
        let vk = 0x41 + i as u16;
        p.bindings
            .insert(c, BindingSlot::from_bind(BindTarget::Key { vk, kind }));
    }
    let rp = p.resolve();
    let mut ms = MapState::default();
    let late = &ControllerState { touch_button: true, ..Default::default() };
    let early = &ControllerState { mute: true, ..Default::default() };
    run(late, &rp, &mut ms, 0);
    run(&ControllerState::default(), &rp, &mut ms, 1);
    let (_, first) = run(early, &rp, &mut ms, 2);
    assert_eq!(first.as_slice().len(), 1);
    let (_, held) = run(early, &rp, &mut ms, 3);
    assert!(held.is_empty(), "the sixteenth key is tracked");
}
