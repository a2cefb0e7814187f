use hyperion_core::config::{AutoSwitchConfig, AutoSwitchRule, HidHideConfig, ThreadConfig};
use hyperion_core::editor::composer::BindKind;
use hyperion_core::editor::message::{ControlMsg, Stick, Trigger};
use hyperion_core::editor::mirror::{resolve_profile_id, Snapshot};
use hyperion_core::editor::panels::{
    gyro_is_enabled, hip_fire_window_us, import_name_or_copy, import_request, offers_stages,
};
use hyperion_core::editor::screen::{
    push_trail, quit_requested, request_quit, solid_icon_rgba, QuitFlag, Tab, ICON_SIDE, TRAIL_LEN,
};
use hyperion_core::editor::session::EditSession;
use hyperion_core::input::Control;
use hyperion_core::map::{GyroMode, GyroSettings, MacroDef, PadBtn, Profile, TouchpadSettings};
use hyperion_core::names::NameMap;
use hyperion_core::output::PadTarget;
use hyperion_core::trigger::{TriggerMode, TriggerSettings};

fn profile(name: &str) -> Profile {
    Profile { name: name.to_string(), ..Profile::default() }
}

fn rule(exe: &str, to: &str) -> AutoSwitchRule {
    AutoSwitchRule {
        exe_substr: exe.to_string(),
        profile: to.to_string(),
        ..AutoSwitchRule::default()
    }
}

fn session() -> EditSession {
    let mut profiles = NameMap::new();
    for name in ["fps", "race"] {
        profiles.insert(name.to_string(), profile(name));
    }
    let mut assignments = NameMap::new();
    assignments.insert("padA".to_string(), "fps".to_string());
    assignments.insert("padB".to_string(), "race".to_string());
    EditSession::new(Snapshot {
        active_device: "padA".to_string(),
        profiles,
        devices: vec!["padA".to_string(), "padB".to_string()],
        assignments,
        auto_switch: AutoSwitchConfig { enabled: false, rules: vec![rule("game", "fps")] },
        thread: ThreadConfig::default(),
        hidhide: HidHideConfig::default(),
    })
}

#[test]
fn a_session_opens_on_the_active_devices_profile() {
    let s = session();
    assert_eq!(s.mirror.profile, "fps");
    assert_eq!(s.tab, Tab::Mapping);
    assert_eq!(s.structure.profile_ids(), vec!["fps", "race"]);
    assert_eq!(s.structure.auto_switch_committed, s.structure.auto_switch.rules);
    assert_eq!(resolve_profile_id(&s.structure.assignments, "padB"), "race");
    assert_eq!(resolve_profile_id(&s.structure.assignments, "nobody"), "default");
}

#[test]
fn a_session_opens_with_nothing_chosen() {
    let s = session();
    assert_eq!(s.structure.new_profile_name, "");
    let ed = &s.binding_editor;
    assert_eq!((ed.control, ed.shift_trigger), (Control::Cross, Control::L1));
    assert!(!ed.shift_enabled && !ed.turbo_enabled);
    assert_eq!((ed.turbo_period_ms, ed.turbo_duty_num, ed.turbo_duty_den), (100, 1, 2));
    for c in [&ed.base, &ed.shift] {
        assert_eq!((c.kind, c.pad_btn), (BindKind::GamepadButton, PadBtn::B));
        assert_eq!((c.captured_vk, c.captured_label.as_str()), (None, ""));
        assert!(c.scan_code && !c.toggle && !c.capturing);
        assert_eq!((c.macro_id, c.special_id), (0, 0));
    }
}

#[test]
fn profiles_are_created_once() {
    let mut s = session();
    assert_eq!(
        s.create_profile("new".to_string()),
        Some(ControlMsg::CreateProfile { name: "new".to_string() })
    );
    assert_eq!(s.structure.profiles.get("new"), Some(&profile("new")));
    assert_eq!(s.create_profile("new".to_string()), None);
}

#[test]
fn a_typed_name_is_trimmed_and_cleared() {
    let mut s = session();
    s.structure.new_profile_name = "   ".to_string();
    assert_eq!(s.submit_new_profile(), None);
    assert_eq!(s.structure.new_profile_name, "   ");
    s.structure.new_profile_name = " kart ".to_string();
    assert_eq!(
        s.submit_new_profile(),
        Some(ControlMsg::CreateProfile { name: "kart".to_string() })
    );
    assert_eq!(s.structure.new_profile_name, "");
    s.structure.new_profile_name = "kart".to_string();
    assert_eq!(s.submit_new_profile(), None);
    assert_eq!(s.structure.new_profile_name, "");
}

#[test]
fn renaming_takes_everything_along() {
    let mut s = session();
    assert_eq!(s.rename_profile("none".to_string(), "x".to_string()), None);
    assert_eq!(s.rename_profile("fps".to_string(), "race".to_string()), None);
    assert_eq!(
        s.rename_profile("fps".to_string(), "shooter".to_string()),
        Some(ControlMsg::RenameProfile { from: "fps".to_string(), to: "shooter".to_string() })
    );
    assert_eq!(s.structure.profile_ids(), vec!["race", "shooter"]);
    assert_eq!(s.structure.profiles.get("shooter").unwrap().name, "shooter");
    assert_eq!(s.assignment_for("padA").unwrap(), "shooter");
    assert_eq!(s.assignment_for("padB").unwrap(), "race");
    assert_eq!(s.structure.auto_switch.rules[0].profile, "shooter");
    assert_eq!(s.mirror.profile, "shooter");
    s.rename_profile("shooter".to_string(), "fps".to_string());
    assert_eq!(s.assignment_for("padA").unwrap(), "fps");
}

#[test]
fn duplicating_keeps_the_settings() {
    let mut s = session();
    s.set_output_kind("fps".to_string(), PadTarget::Ds4);
    assert_eq!(
        s.duplicate_profile("fps".to_string(), "fps copy".to_string()),
        Some(ControlMsg::DuplicateProfile { src: "fps".to_string(), dst: "fps copy".to_string() })
    );
    assert_eq!(s.output_kind_for("fps copy"), PadTarget::Ds4);
    assert_eq!(s.structure.profiles.get("fps copy").unwrap().name, "fps copy");
    assert_eq!(s.duplicate_profile("fps".to_string(), "race".to_string()), None);
    assert_eq!(s.duplicate_profile("none".to_string(), "x".to_string()), None);
}

#[test]
fn deleting_drops_assignments_and_moves_on() {
    let mut s = session();
    assert_eq!(s.delete_profile("none".to_string()), None);
    assert!(s.may_delete());
    assert_eq!(
        s.delete_profile("fps".to_string()),
        Some(ControlMsg::DeleteProfile { name: "fps".to_string() })
    );
    assert!(s.assignment_for("padA").is_none());
    assert_eq!(s.assignment_for("padB").unwrap(), "race");
    assert_eq!(s.mirror.profile, "race");
    assert!(!s.may_delete());
    s.delete_profile("race".to_string());
    assert_eq!(s.mirror.profile, "race");
}

#[test]
fn output_kinds_are_sent_even_for_unknown_profiles() {
    let mut s = session();
    let msg = s.set_output_kind("none".to_string(), PadTarget::Ds4);
    assert_eq!(
        msg,
        ControlMsg::SetOutputKind { profile: "none".to_string(), kind: PadTarget::Ds4 }
    );
    assert_eq!(s.output_kind_for("none"), PadTarget::X360);
}

#[test]
fn the_active_devices_assignment_is_followed() {
    let mut s = session();
    s.set_assignment("padB".to_string(), "fps".to_string());
    assert_eq!(s.mirror.profile, "fps");
    assert_eq!(
        s.choose_assignment("padA".to_string(), "race".to_string()),
        Some(ControlMsg::SetAssignment { device: "padA".to_string(), profile: "race".to_string() })
    );
    assert_eq!(s.mirror.profile, "race");
    assert_eq!(s.choose_assignment("padA".to_string(), "race".to_string()), None);
    assert_eq!(s.choose_assignment("padA".to_string(), String::new()), None);
    assert_eq!(s.choose_assignment("padC".to_string(), String::new()), None);
}

#[test]
fn settings_edit_the_selected_profile() {
    let mut s = session();
    let gyro = GyroSettings { mode: GyroMode::AlwaysOn, ..GyroSettings::default() };
    s.set_gyro_settings(gyro);
    assert_eq!(s.gyro_settings(), gyro);
    assert_eq!(
        s.push_gyro_settings(),
        ControlMsg::SetGyroSettings { profile: "fps".to_string(), settings: gyro }
    );
    let touch = TouchpadSettings { as_mouse: true, ..TouchpadSettings::default() };
    s.set_touchpad_settings(touch);
    assert_eq!(
        s.push_touchpad_settings(),
        ControlMsg::SetTouchpadSettings { profile: "fps".to_string(), settings: touch }
    );
    let t = TriggerSettings { dead_zone: 9, ..TriggerSettings::default() };
    s.set_trigger_settings(Trigger::Right, t);
    assert_eq!(s.trigger_settings(Trigger::Right), t);
    assert_eq!(s.trigger_settings(Trigger::Left), TriggerSettings::default());
    assert_eq!(
        s.push_trigger_settings(Trigger::Right),
        ControlMsg::SetTriggerSettings {
            profile: "fps".to_string(),
            trigger: Trigger::Right,
            settings: t,
        }
    );
    s.select_profile("race");
    assert_eq!(s.gyro_settings(), GyroSettings::default());
    s.select_profile("nobody");
    assert_eq!(s.mirror.profile, "nobody");
    s.set_gyro_settings(gyro);
    assert_eq!(s.gyro_settings(), GyroSettings::default());
}

#[test]
fn stick_edits_go_to_the_right_stick() {
    let mut s = session();
    s.mirror.stick_mut(Stick::Left).dead_zone.dead_zone = 12;
    assert_eq!(s.mirror.stick(Stick::Left).dead_zone.dead_zone, 12);
    assert_eq!(s.mirror.stick(Stick::Right).dead_zone.dead_zone, 0);
    match s.push_stick_settings(Stick::Left) {
        ControlMsg::SetStickSettings { profile, stick, settings } => {
            assert_eq!((profile.as_str(), stick), ("fps", Stick::Left));
            assert_eq!(settings.dead_zone.dead_zone, 12);
        }
        other => panic!("unexpected {other:?}"),
    }
    s.mirror.mouse.invert_x = true;
    assert_eq!(
        s.push_mouse_settings(),
        ControlMsg::SetMouseSettings { profile: "fps".to_string(), settings: s.mirror.mouse }
    );
}

#[test]
fn a_deleted_macro_wins_over_a_changed_one() {
    let mut s = session();
    let list = || vec![MacroDef { id: 1, ..MacroDef::default() }, MacroDef { id: 2, ..MacroDef::default() }];
    assert_eq!(
        s.commit_macros(list(), Some(0), Some(1)),
        Some(ControlMsg::DeleteMacro { profile: "fps".to_string(), id: 1 })
    );
    assert_eq!(s.mirror.macros.len(), 1);
    assert_eq!(
        s.commit_macros(list(), None, Some(1)),
        Some(ControlMsg::UpsertMacro {
            profile: "fps".to_string(),
            def: MacroDef { id: 2, ..MacroDef::default() },
        })
    );
    assert_eq!(s.commit_macros(list(), None, None), None);
    assert_eq!(s.mirror.macros, list());
}

#[test]
fn rules_are_reconciled_by_key() {
    let mut s = session();
    assert!(s.reconcile_autoswitch().is_empty());
    s.structure.auto_switch.rules[0].profile = "race".to_string();
    s.structure.auto_switch.rules.push(rule("kart", "race"));
    s.structure.auto_switch.rules.push(rule("kart", "fps"));
    s.add_autoswitch_rule();
    s.add_autoswitch_rule();
    assert_eq!(s.structure.auto_switch.rules.len(), 4);
    assert_eq!(
        s.finish_rules(None, true),
        vec![
            ControlMsg::UpsertAutoSwitchRule { rule: rule("game", "race") },
            ControlMsg::UpsertAutoSwitchRule { rule: rule("kart", "race") },
        ]
    );
    assert_eq!(s.structure.auto_switch_committed, vec![rule("game", "race"), rule("kart", "race")]);
    assert!(s.finish_rules(None, true).is_empty());
    assert!(s.finish_rules(None, false).is_empty());
    assert_eq!(
        s.finish_rules(Some(0), false),
        vec![ControlMsg::DeleteAutoSwitchRule {
            device: String::new(),
            exe_substr: "game".to_string(),
            title_substr: String::new(),
        }]
    );
    assert!(s.finish_rules(Some(99), true).is_empty());
    assert_eq!(
        s.set_autoswitch_enabled(true),
        ControlMsg::SetAutoSwitchEnabled(true)
    );
    assert!(s.structure.auto_switch.enabled);
}

#[test]
fn panels_settle_their_inputs() {
    assert!(offers_stages(TriggerMode::TwoStage) && offers_stages(TriggerMode::HipFire));
    assert!(!offers_stages(TriggerMode::Normal) && !offers_stages(TriggerMode::Unknown));
    assert_eq!(hip_fire_window_us(0), 1000);
    assert_eq!(hip_fire_window_us(25), 25_000);
    assert_eq!(hip_fire_window_us(u32::MAX), u32::MAX);
    assert!(gyro_is_enabled(GyroMode::TriggerHeld) && !gyro_is_enabled(GyroMode::Unknown));
    assert_eq!(import_name_or_copy(" ", "fps"), "fps copy");
    assert_eq!(import_name_or_copy("mine", "fps"), "mine");
    assert_eq!(import_request("", "x = 1"), None);
    assert_eq!(import_request("a", " \n"), None);
    assert_eq!(
        import_request(" a ", "x = 1\n"),
        Some(ControlMsg::ImportProfile { name: "a".to_string(), toml: "x = 1\n".to_string() })
    );
    assert!(EditSession::asks_rename("a", " b "));
    assert!(!EditSession::asks_rename("a", " a ") && !EditSession::asks_rename("a", "  "));
}

#[test]
fn a_trail_keeps_the_newest_points() {
    let mut t = Vec::new();
    for i in 0..(TRAIL_LEN + 5) {
        push_trail(&mut t, i);
    }
    assert_eq!(t.len(), TRAIL_LEN);
    assert_eq!((t[0], t[TRAIL_LEN - 1]), (5, TRAIL_LEN + 4));
}

#[test]
fn the_icon_is_amber_with_a_clear_edge() {
    let side = ICON_SIDE as usize;
    let icon = solid_icon_rgba();
    assert_eq!(icon.len(), side * side * 4);
    let pixel = |x: usize, y: usize| &icon[(y * side + x) * 4..(y * side + x) * 4 + 4];
    assert_eq!(pixel(0, 7), [0, 0, 0, 0]);
    assert_eq!(pixel(side - 1, side - 1), [0, 0, 0, 0]);
    assert_eq!(pixel(1, 1), [255, 176, 64, 255]);
}

#[test]
fn quitting_is_remembered() {
    let mut q = QuitFlag::default();
    assert!(!quit_requested(&q));
    request_quit(&mut q);
    request_quit(&mut q);
    assert!(quit_requested(&q));
}

#[test]
fn tabs_are_shown_in_order() {
    let labels = Tab::ALL.map(|t| t.label());
    assert_eq!(labels[0], "Profiles");
    assert_eq!(labels[6], "Auto-switch");
    assert_eq!(labels.len(), 8);
}
