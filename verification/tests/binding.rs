use hyperion_core::map::{BindTarget, BindingSlot, KeyKind, PadBtn};
use hyperion_core::output::PadButtons;

#[test]
fn padbtn_bit_matches_padbuttons_masks() {
    assert_eq!(PadBtn::A.bit(), PadButtons::A);
    assert_eq!(PadBtn::B.bit(), PadButtons::B);
    assert_eq!(PadBtn::Touchpad.bit(), PadButtons::TOUCHPAD);
    assert_eq!(PadBtn::Unknown.bit(), 0);
}

#[test]
fn default_slot_is_passthrough() {
    let s = BindingSlot::default();
    assert_eq!(s.bind, BindTarget::Passthrough);
    assert!(s.shift_trigger.is_none());
    assert!(s.turbo.is_none());
    assert!(!s.bind.suppresses_identity());
}

#[test]
fn unbound_and_key_suppress_identity() {
    assert!(BindTarget::Unbound.suppresses_identity());
    assert!(BindTarget::KeyUnbound.suppresses_identity());
    assert!(BindTarget::GamepadButton(PadBtn::B).suppresses_identity());
    assert!(BindTarget::Key {
        vk: 0x41,
        kind: KeyKind::hold()
    }
    .suppresses_identity());
    assert!(!BindTarget::Passthrough.suppresses_identity());
}

#[test]
fn known_buttons_have_bits_of_their_own() {
    let all = [
        PadBtn::A,
        PadBtn::B,
        PadBtn::X,
        PadBtn::Y,
        PadBtn::Lb,
        PadBtn::Rb,
        PadBtn::Back,
        PadBtn::Start,
        PadBtn::Ls,
        PadBtn::Rs,
        PadBtn::Guide,
        PadBtn::DpadUp,
        PadBtn::DpadDown,
        PadBtn::DpadLeft,
        PadBtn::DpadRight,
        PadBtn::L2Click,
        PadBtn::R2Click,
        PadBtn::Touchpad,
    ];
    let mut seen = 0u32;
    for b in all {
        assert_eq!(b.bit().count_ones(), 1);
        assert_eq!(seen & b.bit(), 0);
        seen |= b.bit();
    }
}
