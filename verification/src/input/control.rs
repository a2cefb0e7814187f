//! The control names that key every mapping table.

use vstd::prelude::*;

use crate::scalar::Scalar;

verus! {

/// Number of controls: the size of every per-control table.
pub const CONTROL_COUNT: usize = 47;

/// A physical control, and at the same time the dense index of the mapping tables.
///
/// Stick half-axes and triggers have names of their own so that one direction can be mapped
/// without the other. The order is part of the persisted form: names are only ever appended.
#[derive(Clone, Copy, Debug, PartialEq, Eq, PartialOrd, Ord, Hash, Structural)]
pub enum Control {
    /// No control; a valid table index that never reads pressed.
    NoControl,
    /// Left stick pushed left.
    LxNeg,
    /// Left stick pushed right.
    LxPos,
    /// Left stick pushed down.
    LyNeg,
    /// Left stick pushed up.
    LyPos,
    /// Right stick pushed left.
    RxNeg,
    /// Right stick pushed right.
    RxPos,
    /// Right stick pushed down.
    RyNeg,
    /// Right stick pushed up.
    RyPos,
    L1,
    /// Left analog trigger.
    L2,
    /// Left stick click.
    L3,
    R1,
    /// Right analog trigger.
    R2,
    /// Right stick click.
    R3,
    Square,
    Triangle,
    Circle,
    Cross,
    DpadUp,
    DpadRight,
    DpadDown,
    DpadLeft,
    Ps,
    Share,
    Options,
    Mute,
    Capture,
    FnL,
    FnR,
    /// Back-left paddle.
    Blp,
    /// Back-right paddle.
    Brp,
    SideL,
    SideR,
    /// Left trigger pulled all the way.
    L2FullPull,
    /// Right trigger pulled all the way.
    R2FullPull,
    /// Left stick in its outer ring.
    LsOuter,
    /// Right stick in its outer ring.
    RsOuter,
    TouchButton,
    TouchLeft,
    TouchRight,
    TouchUpper,
    TouchMulti,
    GyroXPos,
    GyroXNeg,
    GyroZPos,
    GyroZNeg,
}

/// What sort of reading a control gives, which selects its activation threshold.
#[derive(Clone, Copy, Debug, PartialEq, Eq, Structural)]
pub enum ControlKind {
    /// A plain digital button.
    Button,
    /// A stick half-axis.
    AxisDir,
    /// An analog trigger.
    Trigger,
    /// A touchpad click or finger region.
    Touch,
    /// A gyro direction.
    GyroDir,
}

impl Control {
    /// Number of controls.
    pub const COUNT: usize = 47;

    /// Every control, in table order.
    pub const ALL: [Control; 47] = [
        Control::NoControl,
        Control::LxNeg,
        Control::LxPos,
        Control::LyNeg,
        Control::LyPos,
        Control::RxNeg,
        Control::RxPos,
        Control::RyNeg,
        Control::RyPos,
        Control::L1,
        Control::L2,
        Control::L3,
        Control::R1,
        Control::R2,
        Control::R3,
        Control::Square,
        Control::Triangle,
        Control::Circle,
        Control::Cross,
        Control::DpadUp,
        Control::DpadRight,
        Control::DpadDown,
        Control::DpadLeft,
        Control::Ps,
        Control::Share,
        Control::Options,
        Control::Mute,
        Control::Capture,
        Control::FnL,
        Control::FnR,
        Control::Blp,
        Control::Brp,
        Control::SideL,
        Control::SideR,
        Control::L2FullPull,
        Control::R2FullPull,
        Control::LsOuter,
        Control::RsOuter,
        Control::TouchButton,
        Control::TouchLeft,
        Control::TouchRight,
        Control::TouchUpper,
        Control::TouchMulti,
        Control::GyroXPos,
        Control::GyroXNeg,
        Control::GyroZPos,
        Control::GyroZNeg,
    ];

    /// The table index of a control.
    pub open spec fn index(self) -> int {
        match self {
            Control::NoControl => 0,
            Control::LxNeg => 1,
            Control::LxPos => 2,
            Control::LyNeg => 3,
            Control::LyPos => 4,
            Control::RxNeg => 5,
            Control::RxPos => 6,
            Control::RyNeg => 7,
            Control::RyPos => 8,
            Control::L1 => 9,
            Control::L2 => 10,
            Control::L3 => 11,
            Control::R1 => 12,
            Control::R2 => 13,
            Control::R3 => 14,
            Control::Square => 15,
            Control::Triangle => 16,
            Control::Circle => 17,
            Control::Cross => 18,
            Control::DpadUp => 19,
            Control::DpadRight => 20,
            Control::DpadDown => 21,
            Control::DpadLeft => 22,
            Control::Ps => 23,
            Control::Share => 24,
            Control::Options => 25,
            Control::Mute => 26,
            Control::Capture => 27,
            Control::FnL => 28,
            Control::FnR => 29,
            Control::Blp => 30,
            Control::Brp => 31,
            Control::SideL => 32,
            Control::SideR => 33,
            Control::L2FullPull => 34,
            Control::R2FullPull => 35,
            Control::LsOuter => 36,
            Control::RsOuter => 37,
            Control::TouchButton => 38,
            Control::TouchLeft => 39,
            Control::TouchRight => 40,
            Control::TouchUpper => 41,
            Control::TouchMulti => 42,
            Control::GyroXPos => 43,
            Control::GyroXNeg => 44,
            Control::GyroZPos => 45,
            Control::GyroZNeg => 46,
        }
    }

    /// The table index of this control.
    pub fn as_index(self) -> (r: usize)
        ensures
            r == self.index(),
            r < CONTROL_COUNT,
    {
        match self {
            Control::NoControl => 0,
            Control::LxNeg => 1,
            Control::LxPos => 2,
            Control::LyNeg => 3,
            Control::LyPos => 4,
            Control::RxNeg => 5,
            Control::RxPos => 6,
            Control::RyNeg => 7,
            Control::RyPos => 8,
            Control::L1 => 9,
            Control::L2 => 10,
            Control::L3 => 11,
            Control::R1 => 12,
            Control::R2 => 13,
            Control::R3 => 14,
            Control::Square => 15,
            Control::Triangle => 16,
            Control::Circle => 17,
            Control::Cross => 18,
            Control::DpadUp => 19,
            Control::DpadRight => 20,
            Control::DpadDown => 21,
            Control::DpadLeft => 22,
            Control::Ps => 23,
            Control::Share => 24,
            Control::Options => 25,
            Control::Mute => 26,
            Control::Capture => 27,
            Control::FnL => 28,
            Control::FnR => 29,
            Control::Blp => 30,
            Control::Brp => 31,
            Control::SideL => 32,
            Control::SideR => 33,
            Control::L2FullPull => 34,
            Control::R2FullPull => 35,
            Control::LsOuter => 36,
            Control::RsOuter => 37,
            Control::TouchButton => 38,
            Control::TouchLeft => 39,
            Control::TouchRight => 40,
            Control::TouchUpper => 41,
            Control::TouchMulti => 42,
            Control::GyroXPos => 43,
            Control::GyroXNeg => 44,
            Control::GyroZPos => 45,
            Control::GyroZNeg => 46,
        }
    }

    /// What sort of reading a control gives.
    pub open spec fn kind_spec(self) -> ControlKind {
        let i = self.index();
        if 1 <= i <= 8 {
            ControlKind::AxisDir
        } else if self == Control::L2 || self == Control::R2 || 34 <= i <= 37 {
            ControlKind::Trigger
        } else if 38 <= i <= 42 {
            ControlKind::Touch
        } else if 43 <= i {
            ControlKind::GyroDir
        } else {
            ControlKind::Button
        }
    }

    /// The stick axis a control is one half of: 0 and 1 for the left stick, 2 and 3 for the right.
    pub open spec fn stick_axis_spec(self) -> Option<usize> {
        let i = self.index();
        if 1 <= i <= 8 {
            Some(((i - 1) / 2) as usize)
        } else {
            None
        }
    }

    /// What sort of reading this control gives.
    pub fn kind(self) -> (r: ControlKind)
        ensures
            r == self.kind_spec(),
    {
        match self {
            Control::LxNeg
            | Control::LxPos
            | Control::LyNeg
            | Control::LyPos
            | Control::RxNeg
            | Control::RxPos
            | Control::RyNeg
            | Control::RyPos => ControlKind::AxisDir,
            Control::L2
            | Control::R2
            | Control::L2FullPull
            | Control::R2FullPull
            | Control::LsOuter
            | Control::RsOuter => ControlKind::Trigger,
            Control::TouchButton
            | Control::TouchLeft
            | Control::TouchRight
            | Control::TouchUpper
            | Control::TouchMulti => ControlKind::Touch,
            Control::GyroXPos
            | Control::GyroXNeg
            | Control::GyroZPos
            | Control::GyroZNeg => ControlKind::GyroDir,
            _ => ControlKind::Button,
        }
    }

    /// The stick axis this control is one half of, if it is one: 0 = left X, 1 = left Y,
    /// 2 = right X, 3 = right Y.
    pub fn stick_axis(self) -> (r: Option<usize>)
        ensures
            r == self.stick_axis_spec(),
    {
        match self {
            Control::LxNeg | Control::LxPos => Some(0),
            Control::LyNeg | Control::LyPos => Some(1),
            Control::RxNeg | Control::RxPos => Some(2),
            Control::RyNeg | Control::RyPos => Some(3),
            _ => None,
        }
    }
}

/// The control with table index `i`.
pub open spec fn control_at(i: int) -> Control {
    Control::ALL@[i]
}

/// Indexing by `as_index` and listing in `ALL` are inverse to each other: the table index is dense
/// and every control has exactly one.
pub proof fn all_is_dense()
    ensures
        Control::ALL@.len() == CONTROL_COUNT,
        forall|c: Control| 0 <= #[trigger] c.index() < CONTROL_COUNT && control_at(c.index()) == c,
        forall|i: int| 0 <= i < CONTROL_COUNT ==> (#[trigger] control_at(i)).index() == i,
{
}

/// Pattern of `55/127`, the stick deflection from which a half-axis counts as pressed.
pub const STICK_DIR_BITS: u64 = 0x3FDB_B76E_DDBB_76EE;

/// Pattern of `100/255`, the pull from which an analog trigger counts as pressed.
pub const TRIGGER_BITS: u64 = 0x3FD9_1919_1919_1919;

/// Pattern of `0.5`, the rotation rate from which a gyro direction counts as pressed.
pub const GYRO_DIR_BITS: u64 = 0x3FE0_0000_0000_0000;

/// The readings from which analog controls count as pressed, by kind.
#[derive(Clone, Copy, Debug, PartialEq, Eq, Structural)]
pub struct Thresholds {
    /// For stick half-axes, in `[0,1]`.
    pub stick_dir: Scalar,
    /// For analog triggers and outer rings, in `[0,1]`.
    pub trigger: Scalar,
    /// For gyro directions, in rad/s.
    pub gyro_dir: Scalar,
}

impl Thresholds {
    /// The thresholds in force where nothing else is configured.
    pub open spec fn default_spec() -> Thresholds {
        Thresholds {
            stick_dir: Scalar { bits: STICK_DIR_BITS },
            trigger: Scalar { bits: TRIGGER_BITS },
            gyro_dir: Scalar { bits: GYRO_DIR_BITS },
        }
    }
}

impl Default for Thresholds {
    fn default() -> (r: Thresholds)
        ensures
            r == Thresholds::default_spec(),
    {
        Thresholds {
            stick_dir: Scalar { bits: STICK_DIR_BITS },
            trigger: Scalar { bits: TRIGGER_BITS },
            gyro_dir: Scalar { bits: GYRO_DIR_BITS },
        }
    }
}

/// The two halves of a stick axis belong to the same axis, halves of different axes to different
/// ones, and nothing but a half-axis belongs to any.
pub proof fn halves_share_their_axis(c: Control)
    ensures
        Control::LxNeg.stick_axis_spec() == Some(0usize) && Control::LxPos.stick_axis_spec() == Some(
            0usize,
        ),
        Control::LyNeg.stick_axis_spec() == Some(1usize) && Control::LyPos.stick_axis_spec() == Some(
            1usize,
        ),
        Control::RxNeg.stick_axis_spec() == Some(2usize) && Control::RxPos.stick_axis_spec() == Some(
            2usize,
        ),
        Control::RyNeg.stick_axis_spec() == Some(3usize) && Control::RyPos.stick_axis_spec() == Some(
            3usize,
        ),
        c.stick_axis_spec() is Some <==> c.kind_spec() == ControlKind::AxisDir,
{
}

/// Half-axes, triggers with their outer rings and full pulls, touch zones and gyro directions are
/// what their names say, and every other control is a button.
pub proof fn kinds_follow_the_names(c: Control)
    ensures
        c.kind_spec() == ControlKind::AxisDir <==> c is LxNeg || c is LxPos || c is LyNeg || c is LyPos
            || c is RxNeg || c is RxPos || c is RyNeg || c is RyPos,
        c.kind_spec() == ControlKind::Trigger <==> c is L2 || c is R2 || c is L2FullPull
            || c is R2FullPull || c is LsOuter || c is RsOuter,
        c.kind_spec() == ControlKind::Touch <==> c is TouchButton || c is TouchLeft || c is TouchRight
            || c is TouchUpper || c is TouchMulti,
        c.kind_spec() == ControlKind::GyroDir <==> c is GyroXPos || c is GyroXNeg || c is GyroZPos
            || c is GyroZNeg,
{
}

/// Two controls with the same table index are the same control.
pub proof fn indices_tell_controls_apart(a: Control, b: Control)
    ensures
        a.index() == b.index() ==> a == b,
        0 <= a.index() < 47,
{
}

/// Where nothing is configured, a stick half counts from the double nearest to 55/127, a trigger
/// from the one nearest to 100/255 and a turn from half a radian per second: the digits of the
/// first two, times the denominator, are within half a unit of the numerator's.
pub proof fn default_thresholds_are_the_nearest_doubles()
    ensures
        ({
            let d = Thresholds::default_spec();
            let stick = d.stick_dir.bits - 0x3FD0_0000_0000_0000 + 0x10_0000_0000_0000;
            let trigger = d.trigger.bits - 0x3FD0_0000_0000_0000 + 0x10_0000_0000_0000;
            &&& -127 <= 2 * (127 * stick - 55 * 0x40_0000_0000_0000) <= 127
            &&& -255 <= 2 * (255 * trigger - 100 * 0x40_0000_0000_0000) <= 255
            &&& d.gyro_dir.bits == 0x3FE0_0000_0000_0000
        }),
{
}

} // verus!
