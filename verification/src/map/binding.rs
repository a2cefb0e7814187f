//! What a control can be bound to.

use vstd::prelude::*;

use crate::input::control::Control;
use crate::output::kbm::MouseButton;
use crate::output::state::PadButtons;

verus! {

/// How a bound key behaves.
#[derive(Clone, Copy, Debug, PartialEq, Eq, Structural)]
pub struct KeyKind {
    /// Inject by hardware scancode instead of by virtual-key code.
    pub scan_code: bool,
    /// Latch on one press and release on the next, instead of following the control.
    pub toggle: bool,
}

impl KeyKind {
    /// A virtual key that follows its control.
    pub fn hold() -> (r: KeyKind)
        ensures
            r == (KeyKind { scan_code: false, toggle: false }),
    {
        KeyKind { scan_code: false, toggle: false }
    }
}

impl Default for KeyKind {
    fn default() -> (r: KeyKind)
        ensures
            r == (KeyKind { scan_code: false, toggle: false }),
    {
        KeyKind { scan_code: false, toggle: false }
    }
}

/// A virtual-pad button.
#[derive(Clone, Copy, Debug, PartialEq, Eq, Structural)]
pub enum PadBtn {
    A,
    B,
    X,
    Y,
    Lb,
    Rb,
    Back,
    Start,
    Ls,
    Rs,
    Guide,
    DpadUp,
    DpadDown,
    DpadLeft,
    DpadRight,
    L2Click,
    R2Click,
    Touchpad,
    /// A button that is not known here; it drives nothing.
    Unknown,
}

impl PadBtn {
    /// The bit that a button sets.
    pub open spec fn bit_spec(self) -> u32 {
        match self {
            PadBtn::A => PadButtons::A,
            PadBtn::B => PadButtons::B,
            PadBtn::X => PadButtons::X,
            PadBtn::Y => PadButtons::Y,
            PadBtn::Lb => PadButtons::LB,
            PadBtn::Rb => PadButtons::RB,
            PadBtn::Back => PadButtons::BACK,
            PadBtn::Start => PadButtons::START,
            PadBtn::Ls => PadButtons::LS,
            PadBtn::Rs => PadButtons::RS,
            PadBtn::Guide => PadButtons::GUIDE,
            PadBtn::DpadUp => PadButtons::DPAD_UP,
            PadBtn::DpadDown => PadButtons::DPAD_DOWN,
            PadBtn::DpadLeft => PadButtons::DPAD_LEFT,
            PadBtn::DpadRight => PadButtons::DPAD_RIGHT,
            PadBtn::L2Click => PadButtons::L2_CLICK,
            PadBtn::R2Click => PadButtons::R2_CLICK,
            PadBtn::Touchpad => PadButtons::TOUCHPAD,
            PadBtn::Unknown => 0,
        }
    }

    /// The bit that this button sets.
    pub fn bit(self) -> (r: u32)
        ensures
            r == self.bit_spec(),
    {
        match self {
            PadBtn::A => PadButtons::A,
            PadBtn::B => PadButtons::B,
            PadBtn::X => PadButtons::X,
            PadBtn::Y => PadButtons::Y,
            PadBtn::Lb => PadButtons::LB,
            PadBtn::Rb => PadButtons::RB,
            PadBtn::Back => PadButtons::BACK,
            PadBtn::Start => PadButtons::START,
            PadBtn::Ls => PadButtons::LS,
            PadBtn::Rs => PadButtons::RS,
            PadBtn::Guide => PadButtons::GUIDE,
            PadBtn::DpadUp => PadButtons::DPAD_UP,
            PadBtn::DpadDown => PadButtons::DPAD_DOWN,
            PadBtn::DpadLeft => PadButtons::DPAD_LEFT,
            PadBtn::DpadRight => PadButtons::DPAD_RIGHT,
            PadBtn::L2Click => PadButtons::L2_CLICK,
            PadBtn::R2Click => PadButtons::R2_CLICK,
            PadBtn::Touchpad => PadButtons::TOUCHPAD,
            PadBtn::Unknown => 0,
        }
    }
}

/// Two pad buttons set the same bit only if they are the same button.
pub proof fn pad_bits_are_distinct(a: PadBtn, b: PadBtn)
    requires
        a.bit_spec() == b.bit_spec(),
    ensures
        a == b,
{
}

/// The bits of the pad buttons: the face buttons, the shoulders, the menu buttons, the stick clicks,
/// the guide button, the directions, and the buttons that only one of the two pads has.
pub proof fn pad_buttons_have_their_bits()
    ensures
        PadBtn::A.bit_spec() == 0x1 && PadBtn::B.bit_spec() == 0x2,
        PadBtn::X.bit_spec() == 0x4 && PadBtn::Y.bit_spec() == 0x8,
        PadBtn::Lb.bit_spec() == 0x10 && PadBtn::Rb.bit_spec() == 0x20,
        PadBtn::Back.bit_spec() == 0x40 && PadBtn::Start.bit_spec() == 0x80,
        PadBtn::Ls.bit_spec() == 0x100 && PadBtn::Rs.bit_spec() == 0x200,
        PadBtn::Guide.bit_spec() == 0x400,
        PadBtn::DpadUp.bit_spec() == 0x800,
        PadBtn::DpadDown.bit_spec() == 0x1000,
        PadBtn::DpadLeft.bit_spec() == 0x2000,
        PadBtn::DpadRight.bit_spec() == 0x4000,
        PadBtn::L2Click.bit_spec() == 0x8000,
        PadBtn::R2Click.bit_spec() == 0x1_0000,
        PadBtn::Touchpad.bit_spec() == 0x2_0000,
        PadBtn::Unknown.bit_spec() == 0,
{
}

/// Every target but passing through keeps its control from reaching the pad as itself.
pub proof fn only_passing_reaches_the_pad(t: BindTarget)
    ensures
        t is Passthrough <==> !t.suppresses(),
{
}

/// A virtual-pad axis.
#[derive(Clone, Copy, Debug, PartialEq, Eq, Structural)]
pub enum GamepadAxis {
    Lx,
    Ly,
    Rx,
    Ry,
    Lt,
    Rt,
    /// An axis that is not known here; it drives nothing.
    Unknown,
}

/// The end that a bound axis is pushed to.
#[derive(Clone, Copy, Debug, PartialEq, Eq, Structural)]
pub enum AxisDir {
    Neg,
    Pos,
}

/// What moves the mouse.
#[derive(Clone, Copy, Debug, PartialEq, Eq, Structural)]
pub enum MouseMoveSrc {
    LeftStick,
    RightStick,
    Gyro,
    Touchpad,
    /// A source that is not known here; it moves nothing.
    Unknown,
}

/// Which way the wheel turns.
#[derive(Clone, Copy, Debug, PartialEq, Eq, Structural)]
pub enum WheelDir {
    Up,
    Down,
    Left,
    Right,
    /// A direction that is not known here; it turns nothing.
    Unknown,
}

/// The control that brings in another control's second binding while it is pressed.
#[derive(Clone, Copy, Debug, PartialEq, Eq, Structural)]
pub struct ShiftTrigger {
    pub control: Control,
}

/// Rapid fire: on for `duty_num / duty_den` of every period.
#[derive(Clone, Copy, Debug, PartialEq, Eq, Structural)]
pub struct TurboCfg {
    /// Length of a cycle in microseconds.
    pub period_us: u32,
    pub duty_num: u16,
    pub duty_den: u16,
}

impl Default for TurboCfg {
    /// Half on, half off, ten times a second.
    fn default() -> (r: TurboCfg)
        ensures
            r == (TurboCfg { period_us: 100_000, duty_num: 1, duty_den: 2 }),
    {
        TurboCfg { period_us: 100_000, duty_num: 1, duty_den: 2 }
    }
}

/// What a control does.
#[derive(Clone, Copy, Debug, PartialEq, Eq, Structural)]
pub enum BindTarget {
    /// It reaches the virtual pad as itself.
    Passthrough,
    /// It does nothing and does not reach the pad.
    Unbound,
    /// It presses a pad button.
    GamepadButton(PadBtn),
    /// It pushes a pad axis to one end.
    GamepadAxis { axis: GamepadAxis, dir: AxisDir, full: bool },
    /// It clicks the pad's touchpad.
    TouchpadClick,
    /// It presses a key.
    Key { vk: u16, kind: KeyKind },
    /// It presses no key and does not reach the pad.
    KeyUnbound,
    /// It presses a mouse button.
    Mouse(MouseButton),
    /// It lets a source move the mouse.
    MouseMove(MouseMoveSrc),
    /// It turns the wheel.
    MouseWheel(WheelDir),
    /// It plays a macro.
    Macro(u16),
    /// It only serves as another control's shift trigger.
    Shift(ShiftTrigger),
    /// It fires a special action.
    Special(u16),
    /// A target that is not known here; it works as [`BindTarget::Unbound`].
    Unknown,
}

/// What a control puts out.
pub type OutputBinding = BindTarget;

impl BindTarget {
    /// Whether this target keeps its control from reaching the pad as itself.
    pub open spec fn suppresses(self) -> bool {
        self != BindTarget::Passthrough
    }

    /// Whether this target keeps its control from reaching the pad as itself.
    pub fn suppresses_identity(self) -> (r: bool)
        ensures
            r == self.suppresses(),
    {
        match self {
            BindTarget::Passthrough => false,
            _ => true,
        }
    }
}

impl Default for BindTarget {
    fn default() -> (r: BindTarget)
        ensures
            r == BindTarget::Passthrough,
    {
        BindTarget::Passthrough
    }
}

/// Everything that is configured for one control.
#[derive(Clone, Copy, Debug, PartialEq, Eq, Structural)]
pub struct BindingSlot {
    /// What the control does.
    pub bind: BindTarget,
    /// What brings in `shift_bind`.
    pub shift_trigger: Option<ShiftTrigger>,
    /// What the control does while the shift trigger is pressed.
    pub shift_bind: BindTarget,
    /// Rapid fire.
    pub turbo: Option<TurboCfg>,
}

/// A control's whole binding.
pub type Binding = BindingSlot;

impl BindingSlot {
    /// A slot with one binding and nothing else.
    pub open spec fn of(bind: BindTarget) -> BindingSlot {
        BindingSlot {
            bind,
            shift_trigger: None,
            shift_bind: BindTarget::Passthrough,
            turbo: None,
        }
    }

    /// A slot with one binding and nothing else.
    pub fn from_bind(bind: BindTarget) -> (r: BindingSlot)
        ensures
            r == BindingSlot::of(bind),
    {
        BindingSlot { bind, shift_trigger: None, shift_bind: BindTarget::Passthrough, turbo: None }
    }
}

impl Default for BindingSlot {
    fn default() -> (r: BindingSlot)
        ensures
            r == BindingSlot::of(BindTarget::Passthrough),
    {
        BindingSlot {
            bind: BindTarget::Passthrough,
            shift_trigger: None,
            shift_bind: BindTarget::Passthrough,
            turbo: None,
        }
    }
}

} // verus!
