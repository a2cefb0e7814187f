use hyperion_core::input::{Control, ControlKind};

#[test]
fn count_is_last_variant_plus_one() {
    assert_eq!(Control::COUNT, Control::GyroZNeg as usize + 1);
    assert_eq!(Control::NoControl.as_index(), 0);
    assert_eq!(Control::GyroZNeg.as_index(), Control::COUNT - 1);
}

#[test]
fn all_is_dense_and_ordered() {
    assert_eq!(Control::ALL.len(), Control::COUNT);
    for (i, c) in Control::ALL.iter().enumerate() {
        assert_eq!(c.as_index(), i, "ALL[{i}] = {c:?} is out of order");
    }
}

#[test]
fn as_index_round_trips_through_all() {
    for c in Control::ALL {
        assert_eq!(Control::ALL[c.as_index()], c);
    }
}

#[test]
fn discriminants_are_append_only_anchors() {
    assert_eq!(Control::NoControl as u8, 0);
    assert_eq!(Control::LxNeg as u8, 1);
    assert_eq!(Control::LxPos as u8, 2);
    assert_eq!(Control::Cross as u8, 18);
}

#[test]
fn kind_classification() {
    assert_eq!(Control::NoControl.kind(), ControlKind::Button);
    assert_eq!(Control::Cross.kind(), ControlKind::Button);
    assert_eq!(Control::DpadUp.kind(), ControlKind::Button);
    assert_eq!(Control::LxNeg.kind(), ControlKind::AxisDir);
    assert_eq!(Control::RyPos.kind(), ControlKind::AxisDir);
    assert_eq!(Control::L2.kind(), ControlKind::Trigger);
    assert_eq!(Control::R2.kind(), ControlKind::Trigger);
    assert_eq!(Control::L2FullPull.kind(), ControlKind::Trigger);
    assert_eq!(Control::LsOuter.kind(), ControlKind::Trigger);
    assert_eq!(Control::TouchButton.kind(), ControlKind::Touch);
    assert_eq!(Control::TouchMulti.kind(), ControlKind::Touch);
    assert_eq!(Control::GyroXPos.kind(), ControlKind::GyroDir);
    assert_eq!(Control::L3.kind(), ControlKind::Button);
    assert_eq!(Control::R3.kind(), ControlKind::Button);
}

#[test]
fn stick_axis_pairs_both_halves() {
    assert_eq!(Control::LxNeg.stick_axis(), Some(0));
    assert_eq!(Control::LxPos.stick_axis(), Some(0));
    assert_eq!(Control::LyNeg.stick_axis(), Some(1));
    assert_eq!(Control::LyPos.stick_axis(), Some(1));
    assert_eq!(Control::RxNeg.stick_axis(), Some(2));
    assert_eq!(Control::RxPos.stick_axis(), Some(2));
    assert_eq!(Control::RyNeg.stick_axis(), Some(3));
    assert_eq!(Control::RyPos.stick_axis(), Some(3));
    assert_eq!(Control::Cross.stick_axis(), None);
    assert_eq!(Control::L2.stick_axis(), None);
    assert_eq!(Control::L3.stick_axis(), None);
}
