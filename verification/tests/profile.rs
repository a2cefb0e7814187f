use hyperion_core::input::Control;
use hyperion_core::map::{
    BindTarget, BindingSlot, GyroMode, GyroSettings, KeyKind, MacroDef, MacroMouseButton,
    MacroStep, MouseSettings, PadBtn, Profile, ResolvedProfile, TouchpadSettings,
};
use hyperion_core::mouse_accum::{MouseAccumCfg, TouchAccumCfg};
use hyperion_core::output::{MouseButton, PadTarget};
use hyperion_core::scalar::Scalar;

fn scalar(v: f64) -> Scalar {
    Scalar::from_bits(v.to_bits())
}

fn value(s: Scalar) -> f64 {
    f64::from_bits(s.to_bits())
}

#[test]
fn resolve_fills_dense_array_from_sparse_map() {
    let mut p = Profile::default();
    p.bindings.insert(
        Control::Cross,
        BindingSlot::from_bind(BindTarget::GamepadButton(PadBtn::B)),
    );
    p.bindings.insert(
        Control::Square,
        BindingSlot::from_bind(BindTarget::Key {
            vk: 0x41,
            kind: KeyKind::hold(),
        }),
    );
    let rp = p.resolve();
    assert_eq!(
        rp.slot(Control::Cross).bind,
        BindTarget::GamepadButton(PadBtn::B)
    );
    assert_eq!(
        rp.slot(Control::Square).bind,
        BindTarget::Key {
            vk: 0x41,
            kind: KeyKind::hold()
        }
    );
    assert_eq!(rp.slot(Control::Circle).bind, BindTarget::Passthrough);
    assert_eq!(rp.slot(Control::LxPos).bind, BindTarget::Passthrough);
}

#[test]
fn default_resolved_is_all_passthrough() {
    let rp = ResolvedProfile::default();
    for c in Control::ALL {
        assert_eq!(rp.slot(c).bind, BindTarget::Passthrough);
    }
    assert_eq!(rp.output_kind, PadTarget::default());
}

#[test]
fn mouse_settings_default_matches_accum_default() {
    assert_eq!(
        MouseSettings::default().to_accum_cfg(),
        MouseAccumCfg::default()
    );
}

#[test]
fn mouse_settings_clamp_bounds_and_non_finite() {
    let wild = MouseSettings {
        sensitivity: scalar(9_999.0),
        vertical_scale: scalar(0.0),
        velocity_offset: scalar(5.0),
        deadzone: scalar(2.0),
        min_threshold: scalar(0.0),
        accel_power: scalar(100.0),
        accelerate: true,
        invert_x: true,
        invert_y: true,
    };
    let c = wild.clamped();
    assert_eq!(value(c.sensitivity), 100.0);
    assert_eq!(value(c.vertical_scale), 0.1);
    assert_eq!(value(c.velocity_offset), 1.0);
    assert_eq!(value(c.deadzone), 0.99);
    assert_eq!(
        value(c.min_threshold), 1.0,
        "min_threshold floors at the always-carry 1.0"
    );
    assert_eq!(value(c.accel_power), 8.0);
    assert!(c.accelerate && c.invert_x && c.invert_y);

    let nan = MouseSettings {
        sensitivity: scalar(f64::NAN),
        min_threshold: scalar(f64::INFINITY),
        ..MouseSettings::default()
    }
    .clamped();
    assert_eq!(nan.sensitivity, MouseSettings::default().sensitivity);
    assert!(value(nan.min_threshold).is_finite());
}

#[test]
fn resolve_clamps_mouse_and_shares_macros() {
    let mut p = Profile {
        mouse: MouseSettings {
            sensitivity: scalar(-3.0),
            ..MouseSettings::default()
        },
        ..Profile::default()
    };
    p.macros.push(MacroDef {
        id: 5,
        name: "reload".to_string(),
        repeat: false,
        steps: vec![
            MacroStep::KeyDown {
                vk: 0x52,
                scan_code: true,
            },
            MacroStep::Wait { ms: 30 },
            MacroStep::KeyUp {
                vk: 0x52,
                scan_code: true,
            },
        ],
    });
    let rp = p.resolve();
    assert_eq!(
        value(rp.mouse.sensitivity), 0.01,
        "resolve clamps the mouse settings"
    );
    assert_eq!(rp.macros.len(), 1);
    assert_eq!(rp.macros[0].id, 5);
    assert_eq!(rp.macros[0].steps.len(), 3);
}

#[test]
fn default_resolved_has_empty_macros_and_default_mouse() {
    let rp = ResolvedProfile::default();
    assert!(rp.macros.is_empty());
    assert_eq!(rp.mouse, MouseSettings::default());
}

#[test]
fn macro_mouse_button_maps_to_output() {
    assert_eq!(
        MacroMouseButton::Right.to_mouse_button(),
        MouseButton::Right
    );
    assert_eq!(
        MacroMouseButton::Unknown.to_mouse_button(),
        MouseButton::Left
    );
}

#[test]
fn gyro_settings_default_is_inert_off() {
    let g = GyroSettings::default();
    assert_eq!(g.mode, GyroMode::Off);
    assert!(
        !g.mode.is_active(true),
        "Off is inert even when trigger held"
    );
    assert!(!g.mode.is_active(false));
}

#[test]
fn gyro_mode_activation() {
    assert!(GyroMode::AlwaysOn.is_active(false));
    assert!(GyroMode::AlwaysOn.is_active(true));
    assert!(!GyroMode::TriggerHeld.is_active(false));
    assert!(GyroMode::TriggerHeld.is_active(true));
    assert!(!GyroMode::Off.is_active(true));
    assert!(!GyroMode::Unknown.is_active(true));
}

#[test]
fn gyro_settings_clamp_bounds_and_non_finite() {
    let wild = GyroSettings {
        mode: GyroMode::AlwaysOn,
        sensitivity: scalar(9_999.0),
        vertical_scale: scalar(0.0),
        deadzone: scalar(-5.0),
        velocity_offset: scalar(999.0),
        min_threshold: scalar(0.0),
        jitter_comp: false,
        invert_x: true,
        invert_y: true,
        swap_yaw_roll: true,
    };
    let c = wild.clamped();
    assert_eq!(c.mode, GyroMode::AlwaysOn, "mode passes through clamp");
    assert_eq!(value(c.sensitivity), 100.0);
    assert_eq!(value(c.vertical_scale), 0.1);
    assert_eq!(value(c.deadzone), 0.0);
    assert_eq!(value(c.velocity_offset), 10.0);
    assert_eq!(
        value(c.min_threshold), 1.0,
        "min_threshold floors at the always-carry 1.0"
    );
    assert!(!c.jitter_comp && c.invert_x && c.invert_y && c.swap_yaw_roll);

    let nan = GyroSettings {
        sensitivity: scalar(f64::NAN),
        min_threshold: scalar(f64::INFINITY),
        ..GyroSettings::default()
    }
    .clamped();
    assert_eq!(nan.sensitivity, GyroSettings::default().sensitivity);
    assert!(value(nan.min_threshold).is_finite());
}

#[test]
fn gyro_settings_to_accum_cfg_carries_velocity_tunables() {
    let g = GyroSettings {
        mode: GyroMode::TriggerHeld,
        sensitivity: scalar(30.0),
        vertical_scale: scalar(1.5),
        deadzone: scalar(8.0),
        velocity_offset: scalar(0.2),
        min_threshold: scalar(2.0),
        jitter_comp: false,
        invert_x: true,
        invert_y: false,
        swap_yaw_roll: true,
    };
    let cfg = g.to_accum_cfg();
    assert_eq!(value(cfg.sensitivity), 30.0);
    assert_eq!(value(cfg.vertical_scale), 1.5);
    assert_eq!(value(cfg.deadzone), 8.0);
    assert_eq!(value(cfg.velocity_offset), 0.2);
    assert_eq!(value(cfg.min_threshold), 2.0);
    assert!(!cfg.jitter_comp);
    assert!(cfg.invert_x && !cfg.invert_y);
}

#[test]
fn resolve_clamps_gyro_and_default_is_off() {
    let p = Profile {
        gyro: GyroSettings {
            mode: GyroMode::AlwaysOn,
            sensitivity: scalar(-3.0),
            ..GyroSettings::default()
        },
        ..Profile::default()
    };
    let rp = p.resolve();
    assert_eq!(rp.gyro.mode, GyroMode::AlwaysOn);
    assert_eq!(value(rp.gyro.sensitivity), 0.01, "resolve clamps gyro settings");

    assert_eq!(ResolvedProfile::default().gyro.mode, GyroMode::Off);
}

#[test]
fn touchpad_settings_default_is_inert_off() {
    let t = TouchpadSettings::default();
    assert!(!t.as_mouse, "touch-as-mouse off by default");
    assert!(t.as_buttons);
    assert_eq!(t.to_accum_cfg(), TouchAccumCfg::default());
}

#[test]
fn touchpad_settings_clamp_bounds_and_non_finite() {
    let wild = TouchpadSettings {
        as_mouse: true,
        as_buttons: false,
        sensitivity: scalar(9_999.0),
        velocity_offset: scalar(999.0),
        min_threshold: scalar(0.0),
        jitter_comp: false,
        invert_x: true,
        invert_y: true,
    };
    let c = wild.clamped();
    assert!(c.as_mouse && !c.as_buttons, "flags pass through clamp");
    assert_eq!(value(c.sensitivity), 100.0);
    assert_eq!(value(c.velocity_offset), 10.0);
    assert_eq!(
        value(c.min_threshold), 1.0,
        "min_threshold floors at always-carry 1.0"
    );
    assert!(!c.jitter_comp && c.invert_x && c.invert_y);

    let nan = TouchpadSettings {
        sensitivity: scalar(f64::NAN),
        min_threshold: scalar(f64::INFINITY),
        ..TouchpadSettings::default()
    }
    .clamped();
    assert_eq!(nan.sensitivity, TouchpadSettings::default().sensitivity);
    assert!(value(nan.min_threshold).is_finite());
}

#[test]
fn resolve_clamps_touchpad_and_default_is_off() {
    let p = Profile {
        touchpad: TouchpadSettings {
            as_mouse: true,
            sensitivity: scalar(-3.0),
            ..TouchpadSettings::default()
        },
        ..Profile::default()
    };
    let rp = p.resolve();
    assert!(rp.touchpad.as_mouse);
    assert_eq!(
        value(rp.touchpad.sensitivity), 0.01,
        "resolve clamps touchpad settings"
    );
    assert!(!ResolvedProfile::default().touchpad.as_mouse);
}

#[test]
fn a_binding_reads_back_and_goes_away() {
    let mut p = Profile::default();
    let slot = BindingSlot::from_bind(BindTarget::Unbound);
    assert!(p.bindings.insert(Control::Ps, slot).is_none());
    assert_eq!(p.bindings.get(Control::Ps), Some(slot));
    assert_eq!(p.bindings.get(Control::Cross), None);
    assert_eq!(p.bindings.remove(Control::Ps), Some(slot));
    assert_eq!(p.bindings.get(Control::Ps), None);
}

#[test]
fn a_copy_takes_everything_but_the_name() {
    let mut p = Profile { name: "a".to_string(), ..Profile::default() };
    p.bindings.insert(Control::L1, BindingSlot::from_bind(BindTarget::Macro(4)));
    p.macros.push(MacroDef { id: 4, name: "m".to_string(), repeat: true, steps: vec![MacroStep::Unknown] });
    let q = p.copy_as("b".to_string());
    assert_eq!(q.name, "b");
    assert_eq!(Profile { name: "a".to_string(), ..q }, p);
    assert_eq!(p.clone(), p);
}

#[test]
fn an_unset_trigger_threshold_resolves_to_the_usual_one() {
    let mut p = Profile::default();
    p.l2.button_threshold = 0;
    p.r2.button_threshold = 30;
    let rp = p.resolve();
    assert_eq!(rp.l2.button_threshold, 100);
    assert_eq!(rp.r2.button_threshold, 30);
}
