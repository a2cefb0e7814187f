use hyperion_core::output::{dpad_8way, pack_xinput, Ds4Dpad, PadButtons};

#[test]
fn pad_buttons_set_has_clear() {
    let mut b = PadButtons::default();
    assert!(!b.has(PadButtons::A));
    b.set(PadButtons::A, true);
    b.set(PadButtons::GUIDE, true);
    assert!(b.has(PadButtons::A));
    assert!(b.has(PadButtons::GUIDE));
    assert!(!b.has(PadButtons::B));
    b.set(PadButtons::A, false);
    assert!(!b.has(PadButtons::A));
    assert!(b.has(PadButtons::GUIDE));
}

#[test]
fn pack_xinput_face_and_meta_mapping() {
    let mut b = PadButtons::default();
    b.set(PadButtons::A, true);
    assert_eq!(pack_xinput(b), 0x1000);
    let mut b = PadButtons::default();
    b.set(PadButtons::B, true);
    assert_eq!(pack_xinput(b), 0x2000);
    let mut b = PadButtons::default();
    b.set(PadButtons::X, true);
    assert_eq!(pack_xinput(b), 0x4000);
    let mut b = PadButtons::default();
    b.set(PadButtons::Y, true);
    assert_eq!(pack_xinput(b), 0x8000);
    let mut b = PadButtons::default();
    b.set(PadButtons::GUIDE, true);
    assert_eq!(pack_xinput(b), 0x0400, "GUIDE -> Guide on X360");
    let mut b = PadButtons::default();
    b.set(PadButtons::BACK, true);
    assert_eq!(pack_xinput(b), 0x0020);
    let mut b = PadButtons::default();
    b.set(PadButtons::START, true);
    assert_eq!(pack_xinput(b), 0x0010);
}

#[test]
fn pack_xinput_drops_ds4_only_flags() {
    let mut b = PadButtons::default();
    b.set(PadButtons::L2_CLICK, true);
    b.set(PadButtons::R2_CLICK, true);
    b.set(PadButtons::TOUCHPAD, true);
    assert_eq!(pack_xinput(b), 0, "DS4-only flags have no X360 bit");
}

#[test]
fn pack_xinput_dpad_and_shoulders() {
    let mut b = PadButtons::default();
    b.set(PadButtons::DPAD_UP, true);
    b.set(PadButtons::DPAD_DOWN, true);
    b.set(PadButtons::DPAD_LEFT, true);
    b.set(PadButtons::DPAD_RIGHT, true);
    b.set(PadButtons::LB, true);
    b.set(PadButtons::RB, true);
    b.set(PadButtons::LS, true);
    b.set(PadButtons::RS, true);
    let v = pack_xinput(b);
    assert_eq!(v & 0x000F, 0x000F, "all dpad");
    assert_eq!(v & 0x0300, 0x0300, "both shoulders");
    assert_eq!(v & 0x00C0, 0x00C0, "both thumbs");
}

#[test]
fn dpad_8way_all_directions_and_neutral() {
    assert_eq!(dpad_8way(false, false, false, false), Ds4Dpad::Neutral);
    assert_eq!(dpad_8way(true, false, false, false), Ds4Dpad::North);
    assert_eq!(dpad_8way(false, false, false, true), Ds4Dpad::East);
    assert_eq!(dpad_8way(false, true, false, false), Ds4Dpad::South);
    assert_eq!(dpad_8way(false, false, true, false), Ds4Dpad::West);
    assert_eq!(dpad_8way(true, false, false, true), Ds4Dpad::NorthEast);
    assert_eq!(dpad_8way(true, false, true, false), Ds4Dpad::NorthWest);
    assert_eq!(dpad_8way(false, true, false, true), Ds4Dpad::SouthEast);
    assert_eq!(dpad_8way(false, true, true, false), Ds4Dpad::SouthWest);
}

#[test]
fn dpad_8way_resolves_opposing_presses() {
    assert_eq!(dpad_8way(true, true, false, true), Ds4Dpad::NorthEast);
    assert_eq!(dpad_8way(true, true, false, false), Ds4Dpad::North);
    assert_eq!(dpad_8way(false, false, true, true), Ds4Dpad::East);
}

#[test]
fn ds4_dpad_nibble_values() {
    assert_eq!(Ds4Dpad::North.as_u8(), 0);
    assert_eq!(Ds4Dpad::NorthWest.as_u8(), 7);
    assert_eq!(Ds4Dpad::Neutral.as_u8(), 8);
    assert_eq!(Ds4Dpad::default(), Ds4Dpad::Neutral);
}
