//! What things are called on screen.

use vstd::prelude::*;

use crate::config::StickMode;
use crate::input::control::Control;
use crate::map::binding::PadBtn;
use crate::map::profile::{GyroMode, MacroMouseButton};
use crate::output::state::PadTarget;
use crate::rc::RcMode;
use crate::stick::settings::OutputCurve;
use crate::trigger::{TriggerCurve, TriggerMode};

verus! {

/// What a control is called.
pub open spec fn control_text(c: Control) -> &'static str {
    match c {
        Control::NoControl => "None",
        Control::LxNeg => "Left stick left",
        Control::LxPos => "Left stick right",
        Control::LyNeg => "Left stick down",
        Control::LyPos => "Left stick up",
        Control::RxNeg => "Right stick left",
        Control::RxPos => "Right stick right",
        Control::RyNeg => "Right stick down",
        Control::RyPos => "Right stick up",
        Control::L1 => "L1",
        Control::L2 => "L2 (analog)",
        Control::L3 => "L3 (left stick click)",
        Control::R1 => "R1",
        Control::R2 => "R2 (analog)",
        Control::R3 => "R3 (right stick click)",
        Control::Square => "Square",
        Control::Triangle => "Triangle",
        Control::Circle => "Circle",
        Control::Cross => "Cross",
        Control::DpadUp => "D-pad up",
        Control::DpadRight => "D-pad right",
        Control::DpadDown => "D-pad down",
        Control::DpadLeft => "D-pad left",
        Control::Ps => "PS",
        Control::Share => "Share",
        Control::Options => "Options",
        Control::Mute => "Mute",
        Control::Capture => "Capture",
        Control::FnL => "Fn L (Edge)",
        Control::FnR => "Fn R (Edge)",
        Control::Blp => "Back paddle L (Edge)",
        Control::Brp => "Back paddle R (Edge)",
        Control::SideL => "Side L (Edge)",
        Control::SideR => "Side R (Edge)",
        Control::L2FullPull => "L2 full pull",
        Control::R2FullPull => "R2 full pull",
        Control::LsOuter => "LS outer ring",
        Control::RsOuter => "RS outer ring",
        Control::TouchButton => "Touchpad click",
        Control::TouchLeft => "Touch left",
        Control::TouchRight => "Touch right",
        Control::TouchUpper => "Touch upper",
        Control::TouchMulti => "Touch multi",
        Control::GyroXPos => "Gyro X+",
        Control::GyroXNeg => "Gyro X-",
        Control::GyroZPos => "Gyro Z+",
        Control::GyroZNeg => "Gyro Z-",
    }
}

/// What a control is called.
pub fn control_label(c: Control) -> (r: &'static str)
    ensures
        r@ == control_text(c)@,
{
    match c {
        Control::NoControl => "None",
        Control::LxNeg => "Left stick left",
        Control::LxPos => "Left stick right",
        Control::LyNeg => "Left stick down",
        Control::LyPos => "Left stick up",
        Control::RxNeg => "Right stick left",
        Control::RxPos => "Right stick right",
        Control::RyNeg => "Right stick down",
        Control::RyPos => "Right stick up",
        Control::L1 => "L1",
        Control::L2 => "L2 (analog)",
        Control::L3 => "L3 (left stick click)",
        Control::R1 => "R1",
        Control::R2 => "R2 (analog)",
        Control::R3 => "R3 (right stick click)",
        Control::Square => "Square",
        Control::Triangle => "Triangle",
        Control::Circle => "Circle",
        Control::Cross => "Cross",
        Control::DpadUp => "D-pad up",
        Control::DpadRight => "D-pad right",
        Control::DpadDown => "D-pad down",
        Control::DpadLeft => "D-pad left",
        Control::Ps => "PS",
        Control::Share => "Share",
        Control::Options => "Options",
        Control::Mute => "Mute",
        Control::Capture => "Capture",
        Control::FnL => "Fn L (Edge)",
        Control::FnR => "Fn R (Edge)",
        Control::Blp => "Back paddle L (Edge)",
        Control::Brp => "Back paddle R (Edge)",
        Control::SideL => "Side L (Edge)",
        Control::SideR => "Side R (Edge)",
        Control::L2FullPull => "L2 full pull",
        Control::R2FullPull => "R2 full pull",
        Control::LsOuter => "LS outer ring",
        Control::RsOuter => "RS outer ring",
        Control::TouchButton => "Touchpad click",
        Control::TouchLeft => "Touch left",
        Control::TouchRight => "Touch right",
        Control::TouchUpper => "Touch upper",
        Control::TouchMulti => "Touch multi",
        Control::GyroXPos => "Gyro X+",
        Control::GyroXNeg => "Gyro X-",
        Control::GyroZPos => "Gyro Z+",
        Control::GyroZNeg => "Gyro Z-",
    }
}

/// What a virtual-pad button is called.
pub open spec fn padbtn_text(b: PadBtn) -> &'static str {
    match b {
        PadBtn::A => "A",
        PadBtn::B => "B",
        PadBtn::X => "X",
        PadBtn::Y => "Y",
        PadBtn::Lb => "LB (L1)",
        PadBtn::Rb => "RB (R1)",
        PadBtn::Back => "Back (Share)",
        PadBtn::Start => "Start (Options)",
        PadBtn::Ls => "LS click",
        PadBtn::Rs => "RS click",
        PadBtn::Guide => "Guide (PS)",
        PadBtn::DpadUp => "D-pad up",
        PadBtn::DpadDown => "D-pad down",
        PadBtn::DpadLeft => "D-pad left",
        PadBtn::DpadRight => "D-pad right",
        PadBtn::L2Click => "L2 click",
        PadBtn::R2Click => "R2 click",
        PadBtn::Touchpad => "Touchpad",
        PadBtn::Unknown => "(unknown)",
    }
}

/// What a virtual-pad button is called.
pub fn padbtn_label(b: PadBtn) -> (r: &'static str)
    ensures
        r@ == padbtn_text(b)@,
{
    match b {
        PadBtn::A => "A",
        PadBtn::B => "B",
        PadBtn::X => "X",
        PadBtn::Y => "Y",
        PadBtn::Lb => "LB (L1)",
        PadBtn::Rb => "RB (R1)",
        PadBtn::Back => "Back (Share)",
        PadBtn::Start => "Start (Options)",
        PadBtn::Ls => "LS click",
        PadBtn::Rs => "RS click",
        PadBtn::Guide => "Guide (PS)",
        PadBtn::DpadUp => "D-pad up",
        PadBtn::DpadDown => "D-pad down",
        PadBtn::DpadLeft => "D-pad left",
        PadBtn::DpadRight => "D-pad right",
        PadBtn::L2Click => "L2 click",
        PadBtn::R2Click => "R2 click",
        PadBtn::Touchpad => "Touchpad",
        PadBtn::Unknown => "(unknown)",
    }
}

/// What a mouse button of a macro is called.
pub open spec fn mouse_btn_text(b: MacroMouseButton) -> &'static str {
    match b {
        MacroMouseButton::Left => "Left",
        MacroMouseButton::Right => "Right",
        MacroMouseButton::Middle => "Middle",
        MacroMouseButton::X1 => "X1",
        MacroMouseButton::X2 => "X2",
        MacroMouseButton::Unknown => "(unknown)",
    }
}

/// What a mouse button of a macro is called.
pub fn mouse_btn_label(b: MacroMouseButton) -> (r: &'static str)
    ensures
        r@ == mouse_btn_text(b)@,
{
    match b {
        MacroMouseButton::Left => "Left",
        MacroMouseButton::Right => "Right",
        MacroMouseButton::Middle => "Middle",
        MacroMouseButton::X1 => "X1",
        MacroMouseButton::X2 => "X2",
        MacroMouseButton::Unknown => "(unknown)",
    }
}

/// What a virtual pad is called.
pub open spec fn output_text(kind: PadTarget) -> &'static str {
    match kind {
        PadTarget::X360 => "Xbox 360",
        PadTarget::Ds4 => "DualShock 4",
    }
}

/// What a virtual pad is called.
pub fn output_label(kind: PadTarget) -> (r: &'static str)
    ensures
        r@ == output_text(kind)@,
{
    match kind {
        PadTarget::X360 => "Xbox 360",
        PadTarget::Ds4 => "DualShock 4",
    }
}

/// What a stick mode is called.
pub open spec fn stick_mode_text(mode: StickMode) -> &'static str {
    match mode {
        StickMode::Bypass => "None (pass-through)",
        StickMode::Rc => "RC filter",
    }
}

/// What a stick mode is called.
pub fn stick_mode_label(mode: StickMode) -> (r: &'static str)
    ensures
        r@ == stick_mode_text(mode)@,
{
    match mode {
        StickMode::Bypass => "None (pass-through)",
        StickMode::Rc => "RC filter",
    }
}

/// What a filter algorithm is called.
pub open spec fn algo_text(mode: RcMode) -> &'static str {
    match mode {
        RcMode::FireBirdInteger => "FireBird (integer)",
        RcMode::UltimateLegacy => "Ultimate (legacy)",
        RcMode::UltimateDt => "Ultimate (dt-invariant)",
    }
}

/// What a filter algorithm is called.
pub fn algo_label(mode: RcMode) -> (r: &'static str)
    ensures
        r@ == algo_text(mode)@,
{
    match mode {
        RcMode::FireBirdInteger => "FireBird (integer)",
        RcMode::UltimateLegacy => "Ultimate (legacy)",
        RcMode::UltimateDt => "Ultimate (dt-invariant)",
    }
}

/// What a trigger mode is called.
pub open spec fn trigger_mode_text(mode: TriggerMode) -> &'static str {
    match mode {
        TriggerMode::Normal => "Normal (single stage)",
        TriggerMode::TwoStage => "Two-stage (soft + full)",
        TriggerMode::HipFire => "Hip-fire (timed soft/full)",
        TriggerMode::Unknown => "(unknown)",
    }
}

/// What a trigger mode is called.
pub fn trigger_mode_label(mode: TriggerMode) -> (r: &'static str)
    ensures
        r@ == trigger_mode_text(mode)@,
{
    match mode {
        TriggerMode::Normal => "Normal (single stage)",
        TriggerMode::TwoStage => "Two-stage (soft + full)",
        TriggerMode::HipFire => "Hip-fire (timed soft/full)",
        TriggerMode::Unknown => "(unknown)",
    }
}

/// What a trigger mode does, in a sentence or two.
pub open spec fn trigger_mode_hint_text(mode: TriggerMode) -> &'static str {
    match mode {
        TriggerMode::Normal => {
            "A single digital stage at the button threshold (soft == full). Identical to M5."
        },
        TriggerMode::TwoStage => {
            "Soft pull fires at the soft threshold; full pull fires at a complete (255) pull. Bind \
             the two stages separately in the Mapping tab."
        },
        TriggerMode::HipFire => {
            "A fast full pull within the window fires only the full stage; a held soft pull fires \
             the soft stage once the window elapses."
        },
        TriggerMode::Unknown => "Unknown mode — the engine treats it as Normal.",
    }
}

/// What a trigger mode does, in a sentence or two.
pub fn trigger_mode_hint(mode: TriggerMode) -> (r: &'static str)
    ensures
        r@ == trigger_mode_hint_text(mode)@,
{
    match mode {
        TriggerMode::Normal => {
            "A single digital stage at the button threshold (soft == full). Identical to M5."
        },
        TriggerMode::TwoStage => {
            "Soft pull fires at the soft threshold; full pull fires at a complete (255) pull. Bind \
             the two stages separately in the Mapping tab."
        },
        TriggerMode::HipFire => {
            "A fast full pull within the window fires only the full stage; a held soft pull fires \
             the soft stage once the window elapses."
        },
        TriggerMode::Unknown => "Unknown mode — the engine treats it as Normal.",
    }
}

/// What a trigger curve is called.
pub open spec fn trigger_curve_text(curve: TriggerCurve) -> &'static str {
    match curve {
        TriggerCurve::Linear => "Linear",
        TriggerCurve::EnhancedPrecision => "Enhanced precision",
        TriggerCurve::Quadratic => "Quadratic",
        TriggerCurve::Cubic => "Cubic",
        TriggerCurve::EaseoutQuad => "Ease-out quadratic",
        TriggerCurve::EaseoutCubic => "Ease-out cubic",
        TriggerCurve::Bezier => "Bezier",
        TriggerCurve::ApexClassicInverse => "Apex classic inverse",
        TriggerCurve::ApexClassicInverseAxial => "Apex classic inverse (axial)",
    }
}

/// What a trigger curve is called.
pub fn trigger_curve_label(curve: TriggerCurve) -> (r: &'static str)
    ensures
        r@ == trigger_curve_text(curve)@,
{
    match curve {
        TriggerCurve::Linear => "Linear",
        TriggerCurve::EnhancedPrecision => "Enhanced precision",
        TriggerCurve::Quadratic => "Quadratic",
        TriggerCurve::Cubic => "Cubic",
        TriggerCurve::EaseoutQuad => "Ease-out quadratic",
        TriggerCurve::EaseoutCubic => "Ease-out cubic",
        TriggerCurve::Bezier => "Bezier",
        TriggerCurve::ApexClassicInverse => "Apex classic inverse",
        TriggerCurve::ApexClassicInverseAxial => "Apex classic inverse (axial)",
    }
}

/// What a stick curve is called.
pub open spec fn stick_curve_text(curve: OutputCurve) -> &'static str {
    match curve {
        OutputCurve::Linear => "Linear",
        OutputCurve::EnhancedPrecision => "Enhanced precision",
        OutputCurve::Quadratic => "Quadratic",
        OutputCurve::Cubic => "Cubic",
        OutputCurve::EaseoutQuad => "Ease-out quadratic",
        OutputCurve::EaseoutCubic => "Ease-out cubic",
        OutputCurve::Bezier => "Bezier (custom)",
        OutputCurve::ApexClassicInverse => "Apex classic inverse",
        OutputCurve::ApexClassicInverseAxial => "Apex classic inverse (axial)",
    }
}

/// What a stick curve is called.
pub fn stick_curve_label(curve: OutputCurve) -> (r: &'static str)
    ensures
        r@ == stick_curve_text(curve)@,
{
    match curve {
        OutputCurve::Linear => "Linear",
        OutputCurve::EnhancedPrecision => "Enhanced precision",
        OutputCurve::Quadratic => "Quadratic",
        OutputCurve::Cubic => "Cubic",
        OutputCurve::EaseoutQuad => "Ease-out quadratic",
        OutputCurve::EaseoutCubic => "Ease-out cubic",
        OutputCurve::Bezier => "Bezier (custom)",
        OutputCurve::ApexClassicInverse => "Apex classic inverse",
        OutputCurve::ApexClassicInverseAxial => "Apex classic inverse (axial)",
    }
}

/// What a gyro mode is called.
pub open spec fn gyro_mode_text(mode: GyroMode) -> &'static str {
    match mode {
        GyroMode::Off => "Off",
        GyroMode::AlwaysOn => "Always on",
        GyroMode::TriggerHeld => "While trigger held",
        GyroMode::Unknown => "(unknown)",
    }
}

/// What a gyro mode is called.
pub fn gyro_mode_label(mode: GyroMode) -> (r: &'static str)
    ensures
        r@ == gyro_mode_text(mode)@,
{
    match mode {
        GyroMode::Off => "Off",
        GyroMode::AlwaysOn => "Always on",
        GyroMode::TriggerHeld => "While trigger held",
        GyroMode::Unknown => "(unknown)",
    }
}

/// A half of a stick is called by the stick's side and the way it is pushed: right and up are the
/// positive halves. A direction of the d-pad is called by its way.
pub proof fn directions_are_in_the_names()
    ensures
        control_text(Control::LxNeg)@ == "Left"@ + " stick "@ + "left"@,
        control_text(Control::LxPos)@ == "Left"@ + " stick "@ + "right"@,
        control_text(Control::LyNeg)@ == "Left"@ + " stick "@ + "down"@,
        control_text(Control::LyPos)@ == "Left"@ + " stick "@ + "up"@,
        control_text(Control::RxNeg)@ == "Right"@ + " stick "@ + "left"@,
        control_text(Control::RxPos)@ == "Right"@ + " stick "@ + "right"@,
        control_text(Control::RyNeg)@ == "Right"@ + " stick "@ + "down"@,
        control_text(Control::RyPos)@ == "Right"@ + " stick "@ + "up"@,
        control_text(Control::DpadUp)@ == "D-pad "@ + "up"@,
        control_text(Control::DpadRight)@ == "D-pad "@ + "right"@,
        control_text(Control::DpadDown)@ == "D-pad "@ + "down"@,
        control_text(Control::DpadLeft)@ == "D-pad "@ + "left"@,
{
    reveal_strlit("Left");
    reveal_strlit(" stick ");
    reveal_strlit("left");
    reveal_strlit("Left stick left");
    reveal_strlit("right");
    reveal_strlit("Left stick right");
    reveal_strlit("down");
    reveal_strlit("Left stick down");
    reveal_strlit("up");
    reveal_strlit("Left stick up");
    reveal_strlit("Right");
    reveal_strlit("Right stick left");
    reveal_strlit("Right stick right");
    reveal_strlit("Right stick down");
    reveal_strlit("Right stick up");
    reveal_strlit("D-pad ");
    reveal_strlit("D-pad up");
    reveal_strlit("D-pad right");
    reveal_strlit("D-pad down");
    reveal_strlit("D-pad left");
    assert("Left stick left"@ =~= "Left"@ + " stick "@ + "left"@);
    assert("Left stick right"@ =~= "Left"@ + " stick "@ + "right"@);
    assert("Left stick down"@ =~= "Left"@ + " stick "@ + "down"@);
    assert("Left stick up"@ =~= "Left"@ + " stick "@ + "up"@);
    assert("Right stick left"@ =~= "Right"@ + " stick "@ + "left"@);
    assert("Right stick right"@ =~= "Right"@ + " stick "@ + "right"@);
    assert("Right stick down"@ =~= "Right"@ + " stick "@ + "down"@);
    assert("Right stick up"@ =~= "Right"@ + " stick "@ + "up"@);
    assert("D-pad up"@ =~= "D-pad "@ + "up"@);
    assert("D-pad right"@ =~= "D-pad "@ + "right"@);
    assert("D-pad down"@ =~= "D-pad "@ + "down"@);
    assert("D-pad left"@ =~= "D-pad "@ + "left"@);
}

/// A control that the pad has on both sides has its side in its name, and otherwise the same name on
/// either side; a turn has its way.
pub proof fn sides_are_in_the_names()
    ensures
        control_text(Control::FnL)@ == "Fn "@ + "L"@ + " (Edge)"@,
        control_text(Control::FnR)@ == "Fn "@ + "R"@ + " (Edge)"@,
        control_text(Control::Blp)@ == "Back paddle "@ + "L"@ + " (Edge)"@,
        control_text(Control::Brp)@ == "Back paddle "@ + "R"@ + " (Edge)"@,
        control_text(Control::SideL)@ == "Side "@ + "L"@ + " (Edge)"@,
        control_text(Control::SideR)@ == "Side "@ + "R"@ + " (Edge)"@,
        control_text(Control::L2FullPull)@ == "L"@ + "2 full pull"@,
        control_text(Control::R2FullPull)@ == "R"@ + "2 full pull"@,
        control_text(Control::L2)@ == "L"@ + "2 (analog)"@,
        control_text(Control::R2)@ == "R"@ + "2 (analog)"@,
        control_text(Control::LsOuter)@ == "L"@ + "S outer ring"@,
        control_text(Control::RsOuter)@ == "R"@ + "S outer ring"@,
        control_text(Control::TouchLeft)@ == "Touch "@ + "left"@,
        control_text(Control::TouchRight)@ == "Touch "@ + "right"@,
        control_text(Control::GyroXPos)@ == "Gyro X"@ + "+"@,
        control_text(Control::GyroXNeg)@ == "Gyro X"@ + "-"@,
        control_text(Control::GyroZPos)@ == "Gyro Z"@ + "+"@,
        control_text(Control::GyroZNeg)@ == "Gyro Z"@ + "-"@,
{
    reveal_strlit("Fn ");
    reveal_strlit("L");
    reveal_strlit(" (Edge)");
    reveal_strlit("Fn L (Edge)");
    reveal_strlit("R");
    reveal_strlit("Fn R (Edge)");
    reveal_strlit("Back paddle ");
    reveal_strlit("Back paddle L (Edge)");
    reveal_strlit("Back paddle R (Edge)");
    reveal_strlit("Side ");
    reveal_strlit("Side L (Edge)");
    reveal_strlit("Side R (Edge)");
    reveal_strlit("2 full pull");
    reveal_strlit("L2 full pull");
    reveal_strlit("R2 full pull");
    reveal_strlit("2 (analog)");
    reveal_strlit("L2 (analog)");
    reveal_strlit("R2 (analog)");
    reveal_strlit("S outer ring");
    reveal_strlit("LS outer ring");
    reveal_strlit("RS outer ring");
    reveal_strlit("Touch ");
    reveal_strlit("left");
    reveal_strlit("Touch left");
    reveal_strlit("right");
    reveal_strlit("Touch right");
    reveal_strlit("Gyro X");
    reveal_strlit("+");
    reveal_strlit("Gyro X+");
    reveal_strlit("-");
    reveal_strlit("Gyro X-");
    reveal_strlit("Gyro Z");
    reveal_strlit("Gyro Z+");
    reveal_strlit("Gyro Z-");
    assert("Fn L (Edge)"@ =~= "Fn "@ + "L"@ + " (Edge)"@);
    assert("Fn R (Edge)"@ =~= "Fn "@ + "R"@ + " (Edge)"@);
    assert("Back paddle L (Edge)"@ =~= "Back paddle "@ + "L"@ + " (Edge)"@);
    assert("Back paddle R (Edge)"@ =~= "Back paddle "@ + "R"@ + " (Edge)"@);
    assert("Side L (Edge)"@ =~= "Side "@ + "L"@ + " (Edge)"@);
    assert("Side R (Edge)"@ =~= "Side "@ + "R"@ + " (Edge)"@);
    assert("L2 full pull"@ =~= "L"@ + "2 full pull"@);
    assert("R2 full pull"@ =~= "R"@ + "2 full pull"@);
    assert("L2 (analog)"@ =~= "L"@ + "2 (analog)"@);
    assert("R2 (analog)"@ =~= "R"@ + "2 (analog)"@);
    assert("LS outer ring"@ =~= "L"@ + "S outer ring"@);
    assert("RS outer ring"@ =~= "R"@ + "S outer ring"@);
    assert("Touch left"@ =~= "Touch "@ + "left"@);
    assert("Touch right"@ =~= "Touch "@ + "right"@);
    assert("Gyro X+"@ =~= "Gyro X"@ + "+"@);
    assert("Gyro X-"@ =~= "Gyro X"@ + "-"@);
    assert("Gyro Z+"@ =~= "Gyro Z"@ + "+"@);
    assert("Gyro Z-"@ =~= "Gyro Z"@ + "-"@);
}

/// A button of a virtual pad is called by its Xbox name, with the other pad's name behind it where
/// the two differ.
pub proof fn pad_buttons_have_both_names()
    ensures
        padbtn_text(PadBtn::A)@ == "A"@,
        padbtn_text(PadBtn::B)@ == "B"@,
        padbtn_text(PadBtn::X)@ == "X"@,
        padbtn_text(PadBtn::Y)@ == "Y"@,
        padbtn_text(PadBtn::Lb)@ == "LB (L1)"@,
        padbtn_text(PadBtn::Rb)@ == "RB (R1)"@,
        padbtn_text(PadBtn::Back)@ == "Back (Share)"@,
        padbtn_text(PadBtn::Start)@ == "Start (Options)"@,
        padbtn_text(PadBtn::Ls)@ == "LS click"@,
        padbtn_text(PadBtn::Rs)@ == "RS click"@,
        padbtn_text(PadBtn::Guide)@ == "Guide (PS)"@,
        padbtn_text(PadBtn::DpadUp)@ == "D-pad up"@,
        padbtn_text(PadBtn::DpadDown)@ == "D-pad down"@,
        padbtn_text(PadBtn::DpadLeft)@ == "D-pad left"@,
        padbtn_text(PadBtn::DpadRight)@ == "D-pad right"@,
        padbtn_text(PadBtn::L2Click)@ == "L2 click"@,
        padbtn_text(PadBtn::R2Click)@ == "R2 click"@,
        padbtn_text(PadBtn::Touchpad)@ == "Touchpad"@,
        padbtn_text(PadBtn::Unknown)@ == "(unknown)"@,
{
}

/// A mouse button of a macro is called by its place.
pub proof fn mouse_buttons_are_called_by_their_place()
    ensures
        mouse_btn_text(MacroMouseButton::Left)@ == "Left"@,
        mouse_btn_text(MacroMouseButton::Right)@ == "Right"@,
        mouse_btn_text(MacroMouseButton::Middle)@ == "Middle"@,
        mouse_btn_text(MacroMouseButton::X1)@ == "X1"@,
        mouse_btn_text(MacroMouseButton::X2)@ == "X2"@,
        mouse_btn_text(MacroMouseButton::Unknown)@ == "(unknown)"@,
{
}

/// A virtual pad is called by its make.
pub proof fn pads_are_called_by_their_make()
    ensures
        output_text(PadTarget::X360)@ == "Xbox 360"@,
        output_text(PadTarget::Ds4)@ == "DualShock 4"@,
{
}

/// A stick mode is called by what runs.
pub proof fn stick_modes_are_called_by_what_runs()
    ensures
        stick_mode_text(StickMode::Bypass)@ == "None (pass-through)"@,
        stick_mode_text(StickMode::Rc)@ == "RC filter"@,
{
}

/// A filter is called by its recurrence and what tells it from the others.
pub proof fn filters_are_called_by_their_recurrence()
    ensures
        algo_text(RcMode::FireBirdInteger)@ == "FireBird (integer)"@,
        algo_text(RcMode::UltimateLegacy)@ == "Ultimate (legacy)"@,
        algo_text(RcMode::UltimateDt)@ == "Ultimate (dt-invariant)"@,
{
}

/// A trigger mode is called by its stages.
pub proof fn trigger_modes_are_called_by_their_stages()
    ensures
        trigger_mode_text(TriggerMode::Normal)@ == "Normal (single stage)"@,
        trigger_mode_text(TriggerMode::TwoStage)@ == "Two-stage (soft + full)"@,
        trigger_mode_text(TriggerMode::HipFire)@ == "Hip-fire (timed soft/full)"@,
        trigger_mode_text(TriggerMode::Unknown)@ == "(unknown)"@,
{
}

/// A stick curve is called by its shape.
pub proof fn stick_curves_are_called_by_their_shape()
    ensures
        stick_curve_text(OutputCurve::Linear)@ == "Linear"@,
        stick_curve_text(OutputCurve::EnhancedPrecision)@ == "Enhanced precision"@,
        stick_curve_text(OutputCurve::Quadratic)@ == "Quadratic"@,
        stick_curve_text(OutputCurve::Cubic)@ == "Cubic"@,
        stick_curve_text(OutputCurve::EaseoutQuad)@ == "Ease-out quadratic"@,
        stick_curve_text(OutputCurve::EaseoutCubic)@ == "Ease-out cubic"@,
        stick_curve_text(OutputCurve::Bezier)@ == "Bezier (custom)"@,
        stick_curve_text(OutputCurve::ApexClassicInverse)@ == "Apex classic inverse"@,
        stick_curve_text(OutputCurve::ApexClassicInverseAxial)@ == "Apex classic inverse (axial)"@,
{
}

/// A gyro mode is called by when the gyro runs.
pub proof fn gyro_modes_are_called_by_when_they_run()
    ensures
        gyro_mode_text(GyroMode::Off)@ == "Off"@,
        gyro_mode_text(GyroMode::AlwaysOn)@ == "Always on"@,
        gyro_mode_text(GyroMode::TriggerHeld)@ == "While trigger held"@,
        gyro_mode_text(GyroMode::Unknown)@ == "(unknown)"@,
{
}

/// A trigger curve is called like the stick curve of the same shape, the free one apart.
pub proof fn trigger_curves_share_the_names()
    ensures
        trigger_curve_text(TriggerCurve::Linear)@ == stick_curve_text(OutputCurve::Linear)@,
        trigger_curve_text(TriggerCurve::EnhancedPrecision)@ == stick_curve_text(OutputCurve::EnhancedPrecision)@,
        trigger_curve_text(TriggerCurve::Quadratic)@ == stick_curve_text(OutputCurve::Quadratic)@,
        trigger_curve_text(TriggerCurve::Cubic)@ == stick_curve_text(OutputCurve::Cubic)@,
        trigger_curve_text(TriggerCurve::EaseoutQuad)@ == stick_curve_text(OutputCurve::EaseoutQuad)@,
        trigger_curve_text(TriggerCurve::EaseoutCubic)@ == stick_curve_text(OutputCurve::EaseoutCubic)@,
        trigger_curve_text(TriggerCurve::ApexClassicInverse)@ == stick_curve_text(OutputCurve::ApexClassicInverse)@,
        trigger_curve_text(TriggerCurve::ApexClassicInverseAxial)@ == stick_curve_text(OutputCurve::ApexClassicInverseAxial)@,
        trigger_curve_text(TriggerCurve::Bezier)@ == "Bezier"@,
{
}

/// A button is called by what is printed on it, and a stick's click by its stick as well.
pub proof fn buttons_are_called_by_their_print()
    ensures
        control_text(Control::NoControl)@ == "None"@,
        control_text(Control::L1)@ == "L1"@,
        control_text(Control::R1)@ == "R1"@,
        control_text(Control::L3)@ == "L3 (left stick click)"@,
        control_text(Control::R3)@ == "R3 (right stick click)"@,
        control_text(Control::Square)@ == "Square"@,
        control_text(Control::Triangle)@ == "Triangle"@,
        control_text(Control::Circle)@ == "Circle"@,
        control_text(Control::Cross)@ == "Cross"@,
        control_text(Control::Ps)@ == "PS"@,
        control_text(Control::Share)@ == "Share"@,
        control_text(Control::Options)@ == "Options"@,
        control_text(Control::Mute)@ == "Mute"@,
        control_text(Control::Capture)@ == "Capture"@,
        control_text(Control::TouchButton)@ == "Touchpad click"@,
        control_text(Control::TouchUpper)@ == "Touch upper"@,
        control_text(Control::TouchMulti)@ == "Touch multi"@,
{
}

} // verus!
