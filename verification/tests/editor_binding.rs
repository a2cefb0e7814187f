use hyperion_core::editor::composer::{
    compose_bind, BindComposer, BindKind, BindingEditor, UiMouseButton, UiMouseSrc, UiWheelDir,
};
use hyperion_core::editor::keys::{vk_from_host_key, HostKey};
use hyperion_core::editor::labels::{
    algo_label, control_label, gyro_mode_label, mouse_btn_label, output_label, padbtn_label,
    stick_curve_label, stick_mode_label, trigger_curve_label, trigger_mode_hint,
    trigger_mode_label,
};
use hyperion_core::editor::message::ControlMsg;
use hyperion_core::config::StickMode;
use hyperion_core::input::Control;
use hyperion_core::map::{
    BindTarget, GyroMode, KeyKind, MacroDef, MacroMouseButton, MouseMoveSrc, PadBtn, ShiftTrigger,
    TurboCfg, WheelDir,
};
use hyperion_core::output::{MouseButton, PadTarget};
use hyperion_core::rc::RcMode;
use hyperion_core::stick::OutputCurve;
use hyperion_core::trigger::{TriggerCurve, TriggerMode};

fn composer(kind: BindKind) -> BindComposer {
    BindComposer { kind, ..BindComposer::default() }
}

#[test]
fn every_kind_composes_its_target() {
    assert_eq!(compose_bind(&composer(BindKind::Passthrough)), Some(BindTarget::Passthrough));
    assert_eq!(compose_bind(&composer(BindKind::Unbound)), Some(BindTarget::Unbound));
    assert_eq!(
        compose_bind(&composer(BindKind::GamepadButton)),
        Some(BindTarget::GamepadButton(PadBtn::B))
    );
    assert_eq!(
        compose_bind(&composer(BindKind::MouseButton)),
        Some(BindTarget::Mouse(MouseButton::Left))
    );
    assert_eq!(
        compose_bind(&composer(BindKind::MouseMove)),
        Some(BindTarget::MouseMove(MouseMoveSrc::RightStick))
    );
    assert_eq!(
        compose_bind(&composer(BindKind::MouseWheel)),
        Some(BindTarget::MouseWheel(WheelDir::Up))
    );
    let c = BindComposer { macro_id: 9, special_id: 8, ..composer(BindKind::Macro) };
    assert_eq!(compose_bind(&c), Some(BindTarget::Macro(9)));
    let c = BindComposer { kind: BindKind::Special, ..c };
    assert_eq!(compose_bind(&c), Some(BindTarget::Special(8)));
}

#[test]
fn a_key_binding_waits_for_its_key() {
    let mut c = composer(BindKind::Key);
    assert_eq!(compose_bind(&c), None);
    c.key_pressed(Some(0x41), "A".to_string());
    assert_eq!(c.captured_vk, None);
    c.toggle_capture();
    c.key_pressed(None, "F35".to_string());
    assert!(c.capturing && c.captured_vk.is_none());
    c.key_pressed(Some(0x41), "A".to_string());
    assert!(!c.capturing);
    assert_eq!(c.captured_label, "A");
    let kind = KeyKind { scan_code: true, toggle: false };
    assert_eq!(compose_bind(&c), Some(BindTarget::Key { vk: 0x41, kind }));
    c.clear_capture();
    assert_eq!(compose_bind(&c), None);
    assert_eq!(c.captured_label, "");
}

#[test]
fn a_macro_choice_settles_on_a_defined_one() {
    let list = [MacroDef { id: 5, ..MacroDef::default() }, MacroDef { id: 6, ..MacroDef::default() }];
    let mut c = composer(BindKind::Macro);
    c.settle_macro(&[]);
    assert_eq!(c.macro_id, 0);
    c.settle_macro(&list);
    assert_eq!(c.macro_id, 5);
    c.macro_id = 6;
    c.settle_macro(&list);
    assert_eq!(c.macro_id, 6);
}

#[test]
fn a_row_sends_base_shift_and_turbo() {
    let profile = "p".to_string();
    let mut ed = BindingEditor::default();
    assert!(ed.can_apply());
    assert_eq!(
        ed.apply_binding(&profile),
        vec![
            ControlMsg::SetBinding {
                profile: profile.clone(),
                control: Control::Cross,
                bind: BindTarget::GamepadButton(PadBtn::B),
            },
            ControlMsg::SetShiftTrigger {
                profile: profile.clone(),
                control: Control::Cross,
                trigger: None,
                bind: BindTarget::Passthrough,
            },
            ControlMsg::SetBindingTurbo {
                profile: profile.clone(),
                control: Control::Cross,
                turbo: None,
            },
        ]
    );
    ed.shift_enabled = true;
    ed.shift = composer(BindKind::Unbound);
    ed.shift.capturing = true;
    ed.turbo_enabled = true;
    ed.turbo_duty_den = 0;
    let sent = ed.apply_binding(&profile);
    assert_eq!(
        sent[1],
        ControlMsg::SetShiftTrigger {
            profile: profile.clone(),
            control: Control::Cross,
            trigger: Some(ShiftTrigger { control: Control::L1 }),
            bind: BindTarget::Unbound,
        }
    );
    assert_eq!(
        sent[2],
        ControlMsg::SetBindingTurbo {
            profile: profile.clone(),
            control: Control::Cross,
            turbo: Some(TurboCfg { period_us: 100_000, duty_num: 1, duty_den: 1 }),
        }
    );
    assert!(!ed.shift.capturing);
    assert_eq!(ed.apply_binding(&profile), sent);
}

#[test]
fn an_incomplete_row_sends_nothing() {
    let mut ed = BindingEditor { base: composer(BindKind::Key), ..BindingEditor::default() };
    assert!(!ed.can_apply());
    assert!(ed.apply_binding(&"p".to_string()).is_empty());
    let mut ed = BindingEditor {
        shift_enabled: true,
        shift: composer(BindKind::Key),
        ..BindingEditor::default()
    };
    assert!(!ed.can_apply());
    assert_eq!(ed.apply_binding(&"p".to_string()).len(), 2);
}

#[test]
fn turbo_periods_saturate() {
    let period = |ms: u32| {
        let mut ed = BindingEditor {
            turbo_enabled: true,
            turbo_period_ms: ms,
            ..BindingEditor::default()
        };
        match ed.apply_binding(&"p".to_string()).pop() {
            Some(ControlMsg::SetBindingTurbo { turbo: Some(t), .. }) => t.period_us,
            other => panic!("unexpected {other:?}"),
        }
    };
    assert_eq!(period(0), 1);
    assert_eq!(period(4_294_967), 4_294_967_000);
    assert_eq!(period(4_294_968), u32::MAX);
}

#[test]
fn the_duty_never_exceeds_one() {
    let mut ed = BindingEditor { turbo_duty_num: 7, turbo_duty_den: 3, ..BindingEditor::default() };
    ed.settle_duty();
    assert_eq!((ed.turbo_duty_num, ed.turbo_duty_den), (3, 3));
}

#[test]
fn keys_have_their_virtual_codes() {
    assert_eq!(vk_from_host_key(HostKey::A), Some(0x41));
    assert_eq!(vk_from_host_key(HostKey::Z), Some(0x5A));
    assert_eq!(vk_from_host_key(HostKey::Num0), Some(0x30));
    assert_eq!(vk_from_host_key(HostKey::F12), Some(0x7B));
    assert_eq!(vk_from_host_key(HostKey::Plus), vk_from_host_key(HostKey::Equals));
    assert_eq!(vk_from_host_key(HostKey::Pipe), Some(0xDC));
    assert_eq!(vk_from_host_key(HostKey::Other), None);
}

#[test]
fn offered_choices_map_to_the_core() {
    assert_eq!(BindKind::ALL.len(), 9);
    assert_eq!(BindKind::Key.label(), "Keyboard key");
    assert_eq!(UiMouseButton::ALL.map(|b| b.to_core())[4], MouseButton::X2);
    assert_eq!(UiMouseButton::X1.label(), "X1 (back)");
    assert_eq!(UiMouseSrc::ALL.map(|s| s.to_core())[0], MouseMoveSrc::LeftStick);
    assert_eq!(UiMouseSrc::RightStick.label(), "Right stick");
    assert_eq!(UiWheelDir::ALL.map(|d| d.to_core())[3], WheelDir::Right);
    assert_eq!(UiWheelDir::Down.label(), "Down");
}

#[test]
fn things_have_their_names() {
    assert_eq!(control_label(Control::NoControl), "None");
    assert_eq!(control_label(Control::Blp), "Back paddle L (Edge)");
    assert_eq!(padbtn_label(PadBtn::Lb), "LB (L1)");
    assert_eq!(mouse_btn_label(MacroMouseButton::Unknown), "(unknown)");
    assert_eq!(output_label(PadTarget::Ds4), "DualShock 4");
    assert_eq!(stick_mode_label(StickMode::Bypass), "None (pass-through)");
    assert_eq!(algo_label(RcMode::UltimateDt), "Ultimate (dt-invariant)");
    assert_eq!(trigger_mode_label(TriggerMode::HipFire), "Hip-fire (timed soft/full)");
    assert_eq!(trigger_curve_label(TriggerCurve::Bezier), "Bezier");
    assert_eq!(stick_curve_label(OutputCurve::Bezier), "Bezier (custom)");
    assert_eq!(gyro_mode_label(GyroMode::TriggerHeld), "While trigger held");
    let mut seen: Vec<&str> = Control::ALL.map(control_label).to_vec();
    seen.sort();
    seen.dedup();
    assert_eq!(seen.len(), Control::ALL.len());
}

#[test]
fn trigger_modes_are_explained() {
    assert_eq!(
        trigger_mode_hint(TriggerMode::Normal),
        "A single digital stage at the button threshold (soft == full). Identical to M5."
    );
    assert_eq!(
        trigger_mode_hint(TriggerMode::TwoStage),
        "Soft pull fires at the soft threshold; full pull fires at a complete (255) pull. Bind the \
         two stages separately in the Mapping tab."
    );
    assert_eq!(
        trigger_mode_hint(TriggerMode::HipFire),
        "A fast full pull within the window fires only the full stage; a held soft pull fires the \
         soft stage once the window elapses."
    );
    assert_eq!(
        trigger_mode_hint(TriggerMode::Unknown),
        "Unknown mode — the engine treats it as Normal."
    );
}
