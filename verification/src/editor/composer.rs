//! Composing a binding before it is applied.

use vstd::prelude::*;

use crate::editor::message::ControlMsg;
use crate::input::control::Control;
use crate::map::binding::{
    BindTarget, KeyKind, MouseMoveSrc, PadBtn, ShiftTrigger, TurboCfg, WheelDir,
};
use crate::map::profile::MacroDef;
use crate::output::kbm::MouseButton;

verus! {

/// Which kind of binding is being composed.
#[derive(Clone, Copy, Debug, PartialEq, Eq, Structural)]
pub enum BindKind {
    Passthrough,
    Unbound,
    GamepadButton,
    Key,
    MouseButton,
    MouseMove,
    MouseWheel,
    Macro,
    Special,
}

impl BindKind {
    /// The kinds in the order in which they are offered.
    pub const ALL: [BindKind; 9] = [
        BindKind::Passthrough,
        BindKind::Unbound,
        BindKind::GamepadButton,
        BindKind::Key,
        BindKind::MouseButton,
        BindKind::MouseMove,
        BindKind::MouseWheel,
        BindKind::Macro,
        BindKind::Special,
    ];

    /// What the kind is called.
    pub open spec fn text(self) -> &'static str {
        match self {
            BindKind::Passthrough => "Passthrough (clear)",
            BindKind::Unbound => "Unbound (suppress)",
            BindKind::GamepadButton => "Gamepad button",
            BindKind::Key => "Keyboard key",
            BindKind::MouseButton => "Mouse button",
            BindKind::MouseMove => "Mouse move (from stick)",
            BindKind::MouseWheel => "Mouse wheel",
            BindKind::Macro => "Macro",
            BindKind::Special => "Special action",
        }
    }

    /// What the kind is called.
    pub fn label(self) -> (r: &'static str)
        ensures
            r@ == self.text()@,
    {
        match self {
            BindKind::Passthrough => "Passthrough (clear)",
            BindKind::Unbound => "Unbound (suppress)",
            BindKind::GamepadButton => "Gamepad button",
            BindKind::Key => "Keyboard key",
            BindKind::MouseButton => "Mouse button",
            BindKind::MouseMove => "Mouse move (from stick)",
            BindKind::MouseWheel => "Mouse wheel",
            BindKind::Macro => "Macro",
            BindKind::Special => "Special action",
        }
    }
}

/// A mouse button as it is offered.
#[derive(Clone, Copy, Debug, PartialEq, Eq, Structural)]
pub enum UiMouseButton {
    Left,
    Right,
    Middle,
    X1,
    X2,
}

impl UiMouseButton {
    /// The buttons in the order in which they are offered.
    pub const ALL: [UiMouseButton; 5] = [
        UiMouseButton::Left,
        UiMouseButton::Right,
        UiMouseButton::Middle,
        UiMouseButton::X1,
        UiMouseButton::X2,
    ];

    /// What the button is called.
    pub open spec fn text(self) -> &'static str {
        match self {
            UiMouseButton::Left => "Left",
            UiMouseButton::Right => "Right",
            UiMouseButton::Middle => "Middle",
            UiMouseButton::X1 => "X1 (back)",
            UiMouseButton::X2 => "X2 (forward)",
        }
    }

    /// What the button is called.
    pub fn label(self) -> (r: &'static str)
        ensures
            r@ == self.text()@,
    {
        match self {
            UiMouseButton::Left => "Left",
            UiMouseButton::Right => "Right",
            UiMouseButton::Middle => "Middle",
            UiMouseButton::X1 => "X1 (back)",
            UiMouseButton::X2 => "X2 (forward)",
        }
    }

    /// The button that is pressed.
    pub open spec fn meant(self) -> MouseButton {
        match self {
            UiMouseButton::Left => MouseButton::Left,
            UiMouseButton::Right => MouseButton::Right,
            UiMouseButton::Middle => MouseButton::Middle,
            UiMouseButton::X1 => MouseButton::X1,
            UiMouseButton::X2 => MouseButton::X2,
        }
    }

    /// The button that is pressed.
    pub fn to_core(self) -> (r: MouseButton)
        ensures
            r == self.meant(),
    {
        match self {
            UiMouseButton::Left => MouseButton::Left,
            UiMouseButton::Right => MouseButton::Right,
            UiMouseButton::Middle => MouseButton::Middle,
            UiMouseButton::X1 => MouseButton::X1,
            UiMouseButton::X2 => MouseButton::X2,
        }
    }
}

/// A source of mouse motion as it is offered.
#[derive(Clone, Copy, Debug, PartialEq, Eq, Structural)]
pub enum UiMouseSrc {
    LeftStick,
    RightStick,
}

impl UiMouseSrc {
    /// The sources in the order in which they are offered.
    pub const ALL: [UiMouseSrc; 2] = [UiMouseSrc::LeftStick, UiMouseSrc::RightStick];

    /// What the source is called.
    pub open spec fn text(self) -> &'static str {
        match self {
            UiMouseSrc::LeftStick => "Left stick",
            UiMouseSrc::RightStick => "Right stick",
        }
    }

    /// What the source is called.
    pub fn label(self) -> (r: &'static str)
        ensures
            r@ == self.text()@,
    {
        match self {
            UiMouseSrc::LeftStick => "Left stick",
            UiMouseSrc::RightStick => "Right stick",
        }
    }

    /// The source that moves the mouse.
    pub open spec fn meant(self) -> MouseMoveSrc {
        match self {
            UiMouseSrc::LeftStick => MouseMoveSrc::LeftStick,
            UiMouseSrc::RightStick => MouseMoveSrc::RightStick,
        }
    }

    /// The source that moves the mouse.
    pub fn to_core(self) -> (r: MouseMoveSrc)
        ensures
            r == self.meant(),
    {
        match self {
            UiMouseSrc::LeftStick => MouseMoveSrc::LeftStick,
            UiMouseSrc::RightStick => MouseMoveSrc::RightStick,
        }
    }
}

/// A wheel direction as it is offered.
#[derive(Clone, Copy, Debug, PartialEq, Eq, Structural)]
pub enum UiWheelDir {
    Up,
    Down,
    Left,
    Right,
}

impl UiWheelDir {
    /// The directions in the order in which they are offered.
    pub const ALL: [UiWheelDir; 4] = [
        UiWheelDir::Up,
        UiWheelDir::Down,
        UiWheelDir::Left,
        UiWheelDir::Right,
    ];

    /// What the direction is called.
    pub open spec fn text(self) -> &'static str {
        match self {
            UiWheelDir::Up => "Up",
            UiWheelDir::Down => "Down",
            UiWheelDir::Left => "Left",
            UiWheelDir::Right => "Right",
        }
    }

    /// What the direction is called.
    pub fn label(self) -> (r: &'static str)
        ensures
            r@ == self.text()@,
    {
        match self {
            UiWheelDir::Up => "Up",
            UiWheelDir::Down => "Down",
            UiWheelDir::Left => "Left",
            UiWheelDir::Right => "Right",
        }
    }

    /// The way the wheel turns.
    pub open spec fn meant(self) -> WheelDir {
        match self {
            UiWheelDir::Up => WheelDir::Up,
            UiWheelDir::Down => WheelDir::Down,
            UiWheelDir::Left => WheelDir::Left,
            UiWheelDir::Right => WheelDir::Right,
        }
    }

    /// The way the wheel turns.
    pub fn to_core(self) -> (r: WheelDir)
        ensures
            r == self.meant(),
    {
        match self {
            UiWheelDir::Up => WheelDir::Up,
            UiWheelDir::Down => WheelDir::Down,
            UiWheelDir::Left => WheelDir::Left,
            UiWheelDir::Right => WheelDir::Right,
        }
    }
}

/// The pad buttons in the order in which they are offered.
pub const PAD_BTNS: [PadBtn; 15] = [
    PadBtn::A,
    PadBtn::B,
    PadBtn::X,
    PadBtn::Y,
    PadBtn::Lb,
    PadBtn::Rb,
    PadBtn::Back,
    PadBtn::Start,
    PadBtn::Ls,
    PadBtn::Rs,
    PadBtn::Guide,
    PadBtn::DpadUp,
    PadBtn::DpadDown,
    PadBtn::DpadLeft,
    PadBtn::DpadRight,
];

/// One binding as far as it is composed.
#[derive(Debug)]
pub struct BindComposer {
    pub kind: BindKind,
    pub pad_btn: PadBtn,
    pub mouse_btn: UiMouseButton,
    pub mouse_src: UiMouseSrc,
    pub wheel_dir: UiWheelDir,
    pub macro_id: u16,
    pub special_id: u16,
    /// Virtual-key code of the captured key.
    pub captured_vk: Option<u16>,
    /// What the captured key is called.
    pub captured_label: String,
    /// Whether the next key is captured.
    pub capturing: bool,
    /// Whether the key is injected by its scancode.
    pub scan_code: bool,
    /// Whether the key latches.
    pub toggle: bool,
}

impl BindComposer {
    /// Whether nothing has been chosen yet: the starting choice of every field.
    pub open spec fn untouched(self) -> bool {
        &&& self.kind == BindKind::GamepadButton
        &&& self.pad_btn == PadBtn::B
        &&& self.mouse_btn == UiMouseButton::Left
        &&& self.mouse_src == UiMouseSrc::RightStick
        &&& self.wheel_dir == UiWheelDir::Up
        &&& self.macro_id == 0
        &&& self.special_id == 0
        &&& self.captured_vk is None
        &&& self.captured_label@.len() == 0
        &&& !self.capturing
        &&& self.scan_code
        &&& !self.toggle
    }
}

impl Default for BindComposer {
    fn default() -> (r: BindComposer)
        ensures
            r.untouched(),
    {
        BindComposer {
            kind: BindKind::GamepadButton,
            pad_btn: PadBtn::B,
            mouse_btn: UiMouseButton::Left,
            mouse_src: UiMouseSrc::RightStick,
            wheel_dir: UiWheelDir::Up,
            macro_id: 0,
            special_id: 0,
            captured_vk: None,
            captured_label: String::new(),
            capturing: false,
            scan_code: true,
            toggle: false,
        }
    }
}

impl Clone for BindComposer {
    fn clone(&self) -> (r: BindComposer)
        ensures
            r == *self,
    {
        BindComposer {
            kind: self.kind,
            pad_btn: self.pad_btn,
            mouse_btn: self.mouse_btn,
            mouse_src: self.mouse_src,
            wheel_dir: self.wheel_dir,
            macro_id: self.macro_id,
            special_id: self.special_id,
            captured_vk: self.captured_vk,
            captured_label: self.captured_label.clone(),
            capturing: self.capturing,
            scan_code: self.scan_code,
            toggle: self.toggle,
        }
    }
}

/// The target that a composer describes; a key binding without a captured key describes none.
pub open spec fn composed(c: BindComposer) -> Option<BindTarget> {
    match c.kind {
        BindKind::Passthrough => Some(BindTarget::Passthrough),
        BindKind::Unbound => Some(BindTarget::Unbound),
        BindKind::GamepadButton => Some(BindTarget::GamepadButton(c.pad_btn)),
        BindKind::Key => match c.captured_vk {
            Some(vk) => Some(
                BindTarget::Key {
                    vk,
                    kind: KeyKind { scan_code: c.scan_code, toggle: c.toggle },
                },
            ),
            None => None,
        },
        BindKind::MouseButton => Some(BindTarget::Mouse(c.mouse_btn.meant())),
        BindKind::MouseMove => Some(BindTarget::MouseMove(c.mouse_src.meant())),
        BindKind::MouseWheel => Some(BindTarget::MouseWheel(c.wheel_dir.meant())),
        BindKind::Macro => Some(BindTarget::Macro(c.macro_id)),
        BindKind::Special => Some(BindTarget::Special(c.special_id)),
    }
}

/// The target that a composer describes, if it describes one.
pub fn compose_bind(c: &BindComposer) -> (r: Option<BindTarget>)
    ensures
        r == composed(*c),
{
    match c.kind {
        BindKind::Passthrough => Some(BindTarget::Passthrough),
        BindKind::Unbound => Some(BindTarget::Unbound),
        BindKind::GamepadButton => Some(BindTarget::GamepadButton(c.pad_btn)),
        BindKind::Key => match c.captured_vk {
            Some(vk) => Some(
                BindTarget::Key {
                    vk,
                    kind: KeyKind { scan_code: c.scan_code, toggle: c.toggle },
                },
            ),
            None => None,
        },
        BindKind::MouseButton => Some(BindTarget::Mouse(c.mouse_btn.to_core())),
        BindKind::MouseMove => Some(BindTarget::MouseMove(c.mouse_src.to_core())),
        BindKind::MouseWheel => Some(BindTarget::MouseWheel(c.wheel_dir.to_core())),
        BindKind::Macro => Some(BindTarget::Macro(c.macro_id)),
        BindKind::Special => Some(BindTarget::Special(c.special_id)),
    }
}

/// Only a key binding can be incomplete, and only until a key is captured.
pub proof fn only_keys_wait(c: BindComposer)
    ensures
        composed(c) is None <==> c.kind == BindKind::Key && c.captured_vk is None,
{
}

/// Whether a macro of this number is defined.
pub open spec fn is_defined(macros: Seq<MacroDef>, id: u16) -> bool {
    exists|i: int| 0 <= i < macros.len() && (#[trigger] macros[i]).id == id
}

/// The place of the first macro with this number, or the length where there is none.
pub fn find_macro(macros: &[MacroDef], id: u16) -> (r: usize)
    ensures
        r <= macros@.len(),
        r < macros@.len() ==> macros@[r as int].id == id,
        forall|k: int| 0 <= k < r ==> (#[trigger] macros@[k]).id != id,
        r < macros@.len() <==> is_defined(macros@, id),
{
    let mut i: usize = 0;
    while i < macros.len()
        invariant
            i <= macros@.len(),
            forall|k: int| 0 <= k < i ==> (#[trigger] macros@[k]).id != id,
        decreases macros@.len() - i,
    {
        if macros[i].id == id {
            return i;
        }
        i = i + 1;
    }
    i
}

impl BindComposer {
    /// The composer with the capture of a key armed or given up.
    pub open spec fn capture_toggled(self) -> BindComposer {
        BindComposer { capturing: !self.capturing, ..self }
    }

    /// The composer after a key was pressed.
    pub open spec fn key_taken(self, vk: Option<u16>, label: String) -> BindComposer {
        if self.capturing && vk is Some {
            BindComposer { captured_vk: vk, captured_label: label, capturing: false, ..self }
        } else {
            self
        }
    }

    /// The composer with its macro choice among the macros that are defined.
    pub open spec fn macro_settled(self, macros: Seq<MacroDef>) -> BindComposer {
        BindComposer {
            macro_id: if macros.len() > 0 && !is_defined(macros, self.macro_id) {
                macros[0].id
            } else {
                self.macro_id
            },
            ..self
        }
    }

    /// Arms the capture of a key, or gives it up.
    pub fn toggle_capture(&mut self)
        ensures
            *final(self) == old(self).capture_toggled(),
    {
        self.capturing = !self.capturing;
    }

    /// Forgets the captured key.
    pub fn clear_capture(&mut self)
        ensures
            final(self).captured_vk is None,
            final(self).captured_label@.len() == 0,
            *final(self) == (BindComposer {
                captured_vk: None,
                captured_label: final(self).captured_label,
                ..*old(self)
            }),
    {
        self.captured_vk = None;
        self.captured_label = String::new();
    }

    /// Takes a pressed key while armed: one with a code is captured, which ends the capture. A key
    /// without a code is ignored, and the capture waits for the next one.
    pub fn key_pressed(&mut self, vk: Option<u16>, label: String)
        ensures
            *final(self) == old(self).key_taken(vk, label),
    {
        if self.capturing && vk.is_some() {
            self.captured_vk = vk;
            self.captured_label = label;
            self.capturing = false;
        }
    }

    /// Moves the macro choice to the first macro where the chosen one is not defined.
    pub fn settle_macro(&mut self, macros: &[MacroDef])
        ensures
            *final(self) == old(self).macro_settled(macros@),
    {
        if macros.len() > 0 && find_macro(macros, self.macro_id) == macros.len() {
            self.macro_id = macros[0].id;
        }
    }
}

/// A binding row of the editor.
#[derive(Debug)]
pub struct BindingEditor {
    /// The control that is bound.
    pub control: Control,
    pub base: BindComposer,
    pub shift_enabled: bool,
    /// The control that brings in the second binding.
    pub shift_trigger: Control,
    pub shift: BindComposer,
    pub turbo_enabled: bool,
    /// Cycle of the rapid fire in milliseconds.
    pub turbo_period_ms: u32,
    pub turbo_duty_num: u16,
    pub turbo_duty_den: u16,
}

impl BindingEditor {
    /// Whether nothing has been chosen yet: the starting choice of every field.
    pub open spec fn untouched(self) -> bool {
        &&& self.control == Control::Cross
        &&& self.base.untouched()
        &&& !self.shift_enabled
        &&& self.shift_trigger == Control::L1
        &&& self.shift.untouched()
        &&& !self.turbo_enabled
        &&& self.turbo_period_ms == 100
        &&& self.turbo_duty_num == 1
        &&& self.turbo_duty_den == 2
    }
}

impl Default for BindingEditor {
    fn default() -> (r: BindingEditor)
        ensures
            r.untouched(),
    {
        BindingEditor {
            control: Control::Cross,
            base: BindComposer::default(),
            shift_enabled: false,
            shift_trigger: Control::L1,
            shift: BindComposer::default(),
            turbo_enabled: false,
            turbo_period_ms: 100,
            turbo_duty_num: 1,
            turbo_duty_den: 2,
        }
    }
}

impl Clone for BindingEditor {
    fn clone(&self) -> (r: BindingEditor)
        ensures
            r == *self,
    {
        BindingEditor {
            control: self.control,
            base: self.base.clone(),
            shift_enabled: self.shift_enabled,
            shift_trigger: self.shift_trigger,
            shift: self.shift.clone(),
            turbo_enabled: self.turbo_enabled,
            turbo_period_ms: self.turbo_period_ms,
            turbo_duty_num: self.turbo_duty_num,
            turbo_duty_den: self.turbo_duty_den,
        }
    }
}

/// Milliseconds as microseconds, at least one and at most what fits.
pub open spec fn period_of_ms(ms: u32) -> u32 {
    if ms == 0 {
        1
    } else if ms * 1000 > 0xFFFF_FFFF {
        0xFFFF_FFFF
    } else {
        (ms * 1000) as u32
    }
}

impl BindingEditor {
    /// Whether the row can be applied: its base is complete, and so is its shift layer where it
    /// has one.
    pub open spec fn applicable(self) -> bool {
        composed(self.base) is Some && (self.shift_enabled ==> composed(self.shift) is Some)
    }

    /// Whether the row can be applied.
    pub fn can_apply(&self) -> (r: bool)
        ensures
            r == self.applicable(),
    {
        compose_bind(&self.base).is_some() && (!self.shift_enabled || compose_bind(
            &self.shift,
        ).is_some())
    }

    /// The row with the share of its rapid fire at one at most.
    pub open spec fn duty_settled(self) -> BindingEditor {
        BindingEditor {
            turbo_duty_num: if self.turbo_duty_num > self.turbo_duty_den {
                self.turbo_duty_den
            } else {
                self.turbo_duty_num
            },
            ..self
        }
    }

    /// Keeps the share of the rapid fire at one at most.
    pub fn settle_duty(&mut self)
        ensures
            *final(self) == old(self).duty_settled(),
    {
        if self.turbo_duty_num > self.turbo_duty_den {
            self.turbo_duty_num = self.turbo_duty_den;
        }
    }

    /// The rapid fire that the row asks for.
    pub open spec fn turbo(self) -> Option<TurboCfg> {
        if self.turbo_enabled {
            Some(
                TurboCfg {
                    period_us: period_of_ms(self.turbo_period_ms),
                    duty_num: self.turbo_duty_num,
                    duty_den: if self.turbo_duty_den == 0 {
                        1
                    } else {
                        self.turbo_duty_den
                    },
                },
            )
        } else {
            None
        }
    }

    /// The messages that apply the row to a profile: the base, then the shift layer or its
    /// removal, then the rapid fire or its removal. A row without a base sends none, and a shift
    /// layer that is not complete is left as it was.
    pub open spec fn messages(self, profile: String) -> Seq<ControlMsg> {
        match composed(self.base) {
            None => Seq::empty(),
            Some(bind) => {
                let first: Seq<ControlMsg> = seq![
                    ControlMsg::SetBinding { profile, control: self.control, bind },
                ];
                let second: Seq<ControlMsg> = if !self.shift_enabled {
                    seq![
                        ControlMsg::SetShiftTrigger {
                            profile,
                            control: self.control,
                            trigger: None,
                            bind: BindTarget::Passthrough,
                        },
                    ]
                } else {
                    match composed(self.shift) {
                        Some(held) => seq![
                            ControlMsg::SetShiftTrigger {
                                profile,
                                control: self.control,
                                trigger: Some(ShiftTrigger { control: self.shift_trigger }),
                                bind: held,
                            },
                        ],
                        None => Seq::empty(),
                    }
                };
                let third: Seq<ControlMsg> = seq![
                    ControlMsg::SetBindingTurbo {
                        profile,
                        control: self.control,
                        turbo: self.turbo(),
                    },
                ];
                first + second + third
            },
        }
    }

    /// The row after it was applied: its captures stand down where it sent anything.
    pub open spec fn stood_down(self) -> BindingEditor {
        if composed(self.base) is Some {
            BindingEditor {
                base: BindComposer { capturing: false, ..self.base },
                shift: BindComposer { capturing: false, ..self.shift },
                ..self
            }
        } else {
            self
        }
    }

    /// Applies the row to a profile: gives the messages to send and stands the captures down. A
    /// row without a base sends nothing and stays as it is.
    pub fn apply_binding(&mut self, profile: &String) -> (r: Vec<ControlMsg>)
        ensures
            r@ == old(self).messages(*profile),
            *final(self) == old(self).stood_down(),
    {
        let mut out: Vec<ControlMsg> = Vec::new();
        let bind: BindTarget = match compose_bind(&self.base) {
            Some(bind) => bind,
            None => return out,
        };
        let control: Control = self.control;
        out.push(ControlMsg::SetBinding { profile: profile.clone(), control, bind });
        if !self.shift_enabled {
            out.push(
                ControlMsg::SetShiftTrigger {
                    profile: profile.clone(),
                    control,
                    trigger: None,
                    bind: BindTarget::Passthrough,
                },
            );
        } else if let Some(held) = compose_bind(&self.shift) {
            out.push(
                ControlMsg::SetShiftTrigger {
                    profile: profile.clone(),
                    control,
                    trigger: Some(ShiftTrigger { control: self.shift_trigger }),
                    bind: held,
                },
            );
        }
        let turbo: Option<TurboCfg> = if self.turbo_enabled {
            let ms: u32 = self.turbo_period_ms;
            let period_us: u32 = if ms == 0 {
                1
            } else if ms > 4_294_967 {
                0xFFFF_FFFF
            } else {
                ms * 1000
            };
            let duty_den: u16 = if self.turbo_duty_den == 0 {
                1
            } else {
                self.turbo_duty_den
            };
            Some(TurboCfg { period_us, duty_num: self.turbo_duty_num, duty_den })
        } else {
            None
        };
        out.push(ControlMsg::SetBindingTurbo { profile: profile.clone(), control, turbo });
        assert(out@ =~= self.messages(*profile));
        self.base.capturing = false;
        self.shift.capturing = false;
        out
    }
}

/// A row that can be applied sends three messages, and applying it again sends the same ones.
pub proof fn applying_again_repeats(before: BindingEditor, after: BindingEditor, profile: String)
    requires
        before.applicable(),
        after == (BindingEditor {
            base: BindComposer { capturing: false, ..before.base },
            shift: BindComposer { capturing: false, ..before.shift },
            ..before
        }),
    ensures
        before.messages(profile).len() == 3,
        after.messages(profile) == before.messages(profile),
{
    assert(composed(after.base) == composed(before.base));
    assert(composed(after.shift) == composed(before.shift));
    assert(after.turbo() == before.turbo());
}

/// What is offered stands for what it is called: each button, source and direction for the one of
/// the same name.
pub proof fn offers_stand_for_their_names()
    ensures
        UiMouseButton::Left.meant() is Left && UiMouseButton::Right.meant() is Right,
        UiMouseButton::Middle.meant() is Middle,
        UiMouseButton::X1.meant() is X1 && UiMouseButton::X2.meant() is X2,
        UiMouseSrc::LeftStick.meant() is LeftStick && UiMouseSrc::RightStick.meant() is RightStick,
        UiWheelDir::Up.meant() is Up && UiWheelDir::Down.meant() is Down,
        UiWheelDir::Left.meant() is Left && UiWheelDir::Right.meant() is Right,
{
}

/// A composer describes a target of its kind, made of the choice for that kind and of no other.
pub proof fn kinds_use_their_own_choice(c: BindComposer)
    ensures
        c.kind is Passthrough <==> composed(c) == Some(BindTarget::Passthrough),
        c.kind is Unbound <==> composed(c) == Some(BindTarget::Unbound),
        c.kind is GamepadButton ==> composed(c) == Some(BindTarget::GamepadButton(c.pad_btn)),
        c.kind is MouseButton ==> composed(c) == Some(BindTarget::Mouse(c.mouse_btn.meant())),
        c.kind is MouseMove ==> composed(c) == Some(BindTarget::MouseMove(c.mouse_src.meant())),
        c.kind is MouseWheel ==> composed(c) == Some(BindTarget::MouseWheel(c.wheel_dir.meant())),
        c.kind is Macro ==> composed(c) == Some(BindTarget::Macro(c.macro_id)),
        c.kind is Special ==> composed(c) == Some(BindTarget::Special(c.special_id)),
        c.kind is Key && c.captured_vk is Some ==> (composed(c) matches Some(
            BindTarget::Key { vk, kind },
        ) && vk == c.captured_vk->0 && kind.scan_code == c.scan_code && kind.toggle == c.toggle),
        c.kind is Key && c.captured_vk is None ==> composed(c) is None,
{
}

/// An armed capture takes the first key with a code and is over; a key without one, and any key
/// while nothing is armed, changes nothing. Arming twice is giving up. Nothing but the capture is
/// touched.
pub proof fn captures_take_one_key(c: BindComposer, vk: u16, label: String, other: String)
    ensures
        c.capturing ==> ({
            let taken = c.key_taken(Some(vk), label);
            &&& taken.captured_vk == Some(vk) && taken.captured_label == label && !taken.capturing
            &&& taken == (BindComposer {
                captured_vk: taken.captured_vk,
                captured_label: taken.captured_label,
                capturing: taken.capturing,
                ..c
            })
            &&& c.key_taken(None, other) == c
            &&& c.key_taken(Some(vk), label).key_taken(Some(vk), other) == taken
        }),
        !c.capturing ==> c.key_taken(Some(vk), label) == c,
        c.capture_toggled().capturing == !c.capturing,
        c.capture_toggled().capture_toggled() == c,
{
}

/// A macro choice that is defined stays, one that is not becomes the first macro's, and settling
/// again changes nothing; without macros it stays whatever it is.
pub proof fn macro_choice_settles(c: BindComposer, macros: Seq<MacroDef>)
    ensures
        ({
            let s = c.macro_settled(macros);
            &&& s == (BindComposer { macro_id: s.macro_id, ..c })
            &&& is_defined(macros, c.macro_id) ==> s == c
            &&& macros.len() == 0 ==> s == c
            &&& macros.len() > 0 ==> is_defined(macros, s.macro_id)
            &&& macros.len() > 0 && !is_defined(macros, c.macro_id) ==> s.macro_id == macros[0].id
            &&& s.macro_settled(macros) == s
        }),
{
    if macros.len() > 0 {
        assert(is_defined(macros, macros[0].id));
    }
}

/// A number is defined exactly by a macro that has it.
pub proof fn macros_define_their_numbers(macros: Seq<MacroDef>, m: MacroDef, id: u16)
    ensures
        is_defined(macros.push(m), id) <==> is_defined(macros, id) || m.id == id,
        !is_defined(Seq::<MacroDef>::empty(), id),
{
    let longer = macros.push(m);
    if is_defined(macros, id) {
        let i = choose|i: int| 0 <= i < macros.len() && (#[trigger] macros[i]).id == id;
        assert(longer[i].id == id);
    }
    if m.id == id {
        assert(longer[macros.len() as int].id == id);
    }
    if is_defined(longer, id) {
        let i = choose|i: int| 0 <= i < longer.len() && (#[trigger] longer[i]).id == id;
        if i < macros.len() {
            assert(macros[i].id == id);
        }
    }
}

/// A cycle is a thousand microseconds for each millisecond, but never none, and never more than
/// fits.
pub proof fn cycles_count_thousands(ms: u32)
    ensures
        period_of_ms(0) == 1,
        1 <= ms <= 4_294_967 ==> period_of_ms(ms) == 1000 * ms,
        ms > 4_294_967 ==> period_of_ms(ms) == u32::MAX,
{
}

/// A share of at most one stays, a larger one becomes one, and nothing else of the row changes.
pub proof fn share_is_at_most_one(e: BindingEditor)
    ensures
        ({
            let s = e.duty_settled();
            &&& s == (BindingEditor { turbo_duty_num: s.turbo_duty_num, ..e })
            &&& s.turbo_duty_num <= s.turbo_duty_den
            &&& e.turbo_duty_num <= e.turbo_duty_den ==> s == e
            &&& e.turbo_duty_num >= e.turbo_duty_den ==> s.turbo_duty_num == e.turbo_duty_den
        }),
{
}

/// Rapid fire that is not enabled is asked away; enabled, it has the row's cycle and share, with no
/// share over nothing.
pub proof fn rapid_fire_follows_the_row(e: BindingEditor)
    ensures
        !e.turbo_enabled ==> e.turbo() is None,
        e.turbo_enabled ==> (e.turbo() matches Some(t) && {
            &&& t.period_us == period_of_ms(e.turbo_period_ms)
            &&& t.duty_num == e.turbo_duty_num
            &&& e.turbo_duty_den > 0 ==> t.duty_den == e.turbo_duty_den
            &&& e.turbo_duty_den == 0 ==> t.duty_den == 1
        }),
{
}

/// A row can be applied when its base is complete and, where it has a second binding, that is too.
pub proof fn complete_rows_can_be_applied(e: BindingEditor)
    ensures
        e.applicable() ==> composed(e.base) is Some,
        e.applicable() && e.shift_enabled ==> composed(e.shift) is Some,
        composed(e.base) is Some && !e.shift_enabled ==> e.applicable(),
        composed(e.base) is Some && composed(e.shift) is Some ==> e.applicable(),
{
}

/// A row that can be applied sends its base first, then its second binding with the control that
/// brings it in, or a passing one without a control where it has none, and its rapid fire last; all
/// for its own control and the given profile.
pub proof fn rows_send_base_shift_and_rapid_fire(e: BindingEditor, profile: String)
    ensures
        composed(e.base) is None ==> e.messages(profile).len() == 0,
        e.applicable() ==> ({
            let m = e.messages(profile);
            &&& m.len() == 3
            &&& (m[0] matches ControlMsg::SetBinding { profile: p, control, bind } && p == profile
                && control == e.control && Some(bind) == composed(e.base))
            &&& (m[1] matches ControlMsg::SetShiftTrigger { profile: p, control, trigger, bind } && {
                &&& p == profile && control == e.control
                &&& e.shift_enabled ==> Some(bind) == composed(e.shift) && (trigger matches Some(t)
                    && t.control == e.shift_trigger)
                &&& !e.shift_enabled ==> trigger is None && bind is Passthrough
            })
            &&& (m[2] matches ControlMsg::SetBindingTurbo { profile: p, control, turbo } && p
                == profile && control == e.control && turbo == e.turbo())
        }),
        composed(e.base) is Some && !e.applicable() ==> ({
            let m = e.messages(profile);
            m.len() == 2 && m[0] is SetBinding && m[1] is SetBindingTurbo
        }),
{
}

/// Applying a row ends its captures where it sent anything, and changes nothing else of it.
pub proof fn applying_ends_the_captures(e: BindingEditor)
    ensures
        composed(e.base) is None ==> e.stood_down() == e,
        composed(e.base) is Some ==> {
            &&& !e.stood_down().base.capturing && !e.stood_down().shift.capturing
            &&& e.stood_down().base == (BindComposer { capturing: false, ..e.base })
            &&& e.stood_down().shift == (BindComposer { capturing: false, ..e.shift })
        },
        e.stood_down() == (BindingEditor {
            base: e.stood_down().base,
            shift: e.stood_down().shift,
            ..e
        }),
{
}

/// A row that nobody has touched binds the cross to B, without a second binding or rapid fire, and
/// is ready to be applied.
pub proof fn untouched_rows_bind_the_cross(e: BindingEditor)
    requires
        e.untouched(),
    ensures
        e.control is Cross && composed(e.base) == Some(BindTarget::GamepadButton(PadBtn::B)),
        e.applicable() && !e.shift_enabled && e.shift_trigger is L1,
        e.turbo() is None && e.turbo_period_ms == 100,
        2 * e.turbo_duty_num == e.turbo_duty_den,
        !e.base.capturing && e.base.captured_vk is None && e.base.scan_code && !e.base.toggle,
        e.base.mouse_src is RightStick && e.base.mouse_btn is Left && e.base.wheel_dir is Up,
        !e.shift.capturing && e.shift.captured_vk is None && e.shift.scan_code && !e.shift.toggle,
{
}

/// What is offered is called by what it does: kinds of binding, mouse buttons, sources and
/// directions.
pub proof fn offers_are_called_by_what_they_do()
    ensures
        BindKind::Passthrough.text()@ == "Passthrough (clear)"@,
        BindKind::Unbound.text()@ == "Unbound (suppress)"@,
        BindKind::GamepadButton.text()@ == "Gamepad button"@,
        BindKind::Key.text()@ == "Keyboard key"@,
        BindKind::MouseButton.text()@ == "Mouse button"@,
        BindKind::MouseMove.text()@ == "Mouse move (from stick)"@,
        BindKind::MouseWheel.text()@ == "Mouse wheel"@,
        BindKind::Macro.text()@ == "Macro"@,
        BindKind::Special.text()@ == "Special action"@,
        UiMouseButton::Left.text()@ == "Left"@,
        UiMouseButton::Right.text()@ == "Right"@,
        UiMouseButton::Middle.text()@ == "Middle"@,
        UiMouseButton::X1.text()@ == "X1 (back)"@,
        UiMouseButton::X2.text()@ == "X2 (forward)"@,
        UiMouseSrc::LeftStick.text()@ == "Left stick"@,
        UiMouseSrc::RightStick.text()@ == "Right stick"@,
        UiWheelDir::Up.text()@ == "Up"@,
        UiWheelDir::Down.text()@ == "Down"@,
        UiWheelDir::Left.text()@ == "Left"@,
        UiWheelDir::Right.text()@ == "Right"@,
{
}

} // verus!
