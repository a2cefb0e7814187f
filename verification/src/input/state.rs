//! The fully decoded controller report that the mapping engine reads.

use vstd::prelude::*;

use crate::flags::{flag8, flag8_spec};
use crate::input::control::{Control, ControlKind, Thresholds};
use crate::input::ds_report::hat_directions;
use crate::input::{Buttons, InputSample, ReportMeta, StickPair};
use crate::scalar::{Scalar, ONE_BITS};

verus! {

/// One finger on the touchpad.
#[derive(Clone, Copy, Debug, PartialEq, Eq, Structural)]
pub struct TouchContact {
    /// Whether the finger touches the pad.
    pub is_active: bool,
    /// The 7-bit contact number.
    pub id: u8,
    /// Horizontal position, 0 to 1919.
    pub x: u16,
    /// Vertical position, 0 to 941.
    pub y: u16,
}

impl TouchContact {
    /// No finger.
    pub open spec fn none_spec() -> TouchContact {
        TouchContact { is_active: false, id: 0, x: 0, y: 0 }
    }
}

impl Default for TouchContact {
    fn default() -> (r: TouchContact)
        ensures
            r == TouchContact::none_spec(),
    {
        TouchContact { is_active: false, id: 0, x: 0, y: 0 }
    }
}

/// Motion sensors: angular rates in rad/s, accelerations in g, and the raw ticks of both.
#[derive(Clone, Copy, Debug, PartialEq, Eq)]
pub struct Motion {
    pub gyro_yaw: Scalar,
    pub gyro_pitch: Scalar,
    pub gyro_roll: Scalar,
    pub accel_x: Scalar,
    pub accel_y: Scalar,
    pub accel_z: Scalar,
    pub gyro_raw: [i16; 3],
    pub accel_raw: [i16; 3],
}

impl Motion {
    /// Whether every reading is zero.
    pub open spec fn at_rest(self) -> bool {
        &&& self.gyro_yaw.bits == 0 && self.gyro_pitch.bits == 0 && self.gyro_roll.bits == 0
        &&& self.accel_x.bits == 0 && self.accel_y.bits == 0 && self.accel_z.bits == 0
        &&& self.gyro_raw@ == seq![0i16, 0i16, 0i16]
        &&& self.accel_raw@ == seq![0i16, 0i16, 0i16]
    }
}

impl Default for Motion {
    fn default() -> (r: Motion)
        ensures
            r.at_rest(),
    {
        let z: Scalar = Scalar { bits: 0 };
        Motion {
            gyro_yaw: z,
            gyro_pitch: z,
            gyro_roll: z,
            accel_x: z,
            accel_y: z,
            accel_z: z,
            gyro_raw: [0, 0, 0],
            accel_raw: [0, 0, 0],
        }
    }
}

/// A fully decoded report.
///
/// Sticks are in `[-1,1]` with up and right positive. Triggers are in `[0,1]`, beside the raw byte
/// that tells a full pull (255). The two ring readings are the sticks' distance from their centre,
/// at most one; whoever fills in the sticks fills them in too.
#[derive(Clone, Copy, Debug, PartialEq, Eq)]
pub struct ControllerState {
    pub lx: Scalar,
    pub ly: Scalar,
    pub rx: Scalar,
    pub ry: Scalar,
    /// Distance of the left stick from its centre, at most one.
    pub ls_ring: Scalar,
    /// Distance of the right stick from its centre, at most one.
    pub rs_ring: Scalar,
    pub l2: Scalar,
    pub r2: Scalar,
    pub l2_raw: u8,
    pub r2_raw: u8,
    /// Square face button.
    pub square: bool,
    /// Triangle face button.
    pub triangle: bool,
    /// Circle face button.
    pub circle: bool,
    /// Cross face button.
    pub cross: bool,
    /// D-pad up.
    pub dpad_up: bool,
    /// D-pad down.
    pub dpad_down: bool,
    /// D-pad left.
    pub dpad_left: bool,
    /// D-pad right.
    pub dpad_right: bool,
    /// Left shoulder.
    pub l1: bool,
    /// Right shoulder.
    pub r1: bool,
    /// Left stick click.
    pub l3: bool,
    /// Right stick click.
    pub r3: bool,
    /// PS button.
    pub ps: bool,
    /// Share button.
    pub share: bool,
    /// Options button.
    pub options: bool,
    /// Mute button.
    pub mute: bool,
    /// Capture button.
    pub capture: bool,
    /// Left function button.
    pub fn_l: bool,
    /// Right function button.
    pub fn_r: bool,
    /// Back-left paddle.
    pub blp: bool,
    /// Back-right paddle.
    pub brp: bool,
    /// Left side button.
    pub side_l: bool,
    /// Right side button.
    pub side_r: bool,
    /// Touchpad click.
    pub touch_button: bool,
    /// The two fingers on the touchpad.
    pub touch: [TouchContact; 2],
    /// Motion sensors.
    pub motion: Motion,
}

impl ControllerState {
    /// Whether nothing is pressed, pushed, touched or turned.
    pub open spec fn neutral(self) -> bool {
        &&& self.lx.bits == 0 && self.ly.bits == 0 && self.rx.bits == 0 && self.ry.bits == 0
        &&& self.ls_ring.bits == 0 && self.rs_ring.bits == 0
        &&& self.l2.bits == 0 && self.r2.bits == 0 && self.l2_raw == 0 && self.r2_raw == 0
        &&& !self.square
        &&& !self.triangle
        &&& !self.circle
        &&& !self.cross
        &&& !self.dpad_up
        &&& !self.dpad_down
        &&& !self.dpad_left
        &&& !self.dpad_right
        &&& !self.l1
        &&& !self.r1
        &&& !self.l3
        &&& !self.r3
        &&& !self.ps
        &&& !self.share
        &&& !self.options
        &&& !self.mute
        &&& !self.capture
        &&& !self.fn_l
        &&& !self.fn_r
        &&& !self.blp
        &&& !self.brp
        &&& !self.side_l
        &&& !self.side_r
        &&& !self.touch_button
        &&& self.touch@ == seq![TouchContact::none_spec(), TouchContact::none_spec()]
        &&& self.motion.at_rest()
    }

    /// The decoded flag of a digital control; analog controls and controls that no report carries
    /// read released.
    pub open spec fn button_spec(self, c: Control) -> bool {
        match c {
            Control::Square => self.square,
            Control::Triangle => self.triangle,
            Control::Circle => self.circle,
            Control::Cross => self.cross,
            Control::DpadUp => self.dpad_up,
            Control::DpadDown => self.dpad_down,
            Control::DpadLeft => self.dpad_left,
            Control::DpadRight => self.dpad_right,
            Control::L1 => self.l1,
            Control::R1 => self.r1,
            Control::L3 => self.l3,
            Control::R3 => self.r3,
            Control::Ps => self.ps,
            Control::Share => self.share,
            Control::Options => self.options,
            Control::Mute => self.mute,
            Control::Capture => self.capture,
            Control::FnL => self.fn_l,
            Control::FnR => self.fn_r,
            Control::Blp => self.blp,
            Control::Brp => self.brp,
            Control::SideL => self.side_l,
            Control::SideR => self.side_r,
            Control::TouchButton => self.touch_button,
            _ => false,
        }
    }

    /// The continuous reading of a control: the non-negative half of a stick axis or of a rotation
    /// rate, the pull of a trigger, the distance of a stick, or 0 / 1 for a button.
    pub open spec fn analog_spec(self, c: Control) -> Scalar {
        match c {
            Control::LxNeg => self.lx.negated().positive_part_spec(),
            Control::LxPos => self.lx.positive_part_spec(),
            Control::LyNeg => self.ly.negated().positive_part_spec(),
            Control::LyPos => self.ly.positive_part_spec(),
            Control::RxNeg => self.rx.negated().positive_part_spec(),
            Control::RxPos => self.rx.positive_part_spec(),
            Control::RyNeg => self.ry.negated().positive_part_spec(),
            Control::RyPos => self.ry.positive_part_spec(),
            Control::L2 | Control::L2FullPull => self.l2,
            Control::R2 | Control::R2FullPull => self.r2,
            Control::LsOuter => self.ls_ring,
            Control::RsOuter => self.rs_ring,
            Control::GyroXPos => self.motion.gyro_pitch.positive_part_spec(),
            Control::GyroXNeg => self.motion.gyro_pitch.negated().positive_part_spec(),
            Control::GyroZPos => self.motion.gyro_yaw.positive_part_spec(),
            Control::GyroZNeg => self.motion.gyro_yaw.negated().positive_part_spec(),
            _ => if self.button_spec(c) {
                Scalar { bits: ONE_BITS }
            } else {
                Scalar { bits: 0 }
            },
        }
    }

    /// Whether a control counts as pressed: by its flag, by its reading against the threshold of
    /// its kind, or, for a full pull, by the raw trigger byte alone.
    pub open spec fn pressed_spec(self, c: Control, t: Thresholds) -> bool {
        match c {
            Control::L2FullPull => self.l2_raw == 255,
            Control::R2FullPull => self.r2_raw == 255,
            _ => match c.kind_spec() {
                ControlKind::AxisDir => self.analog_spec(c).ge_spec(t.stick_dir),
                ControlKind::Trigger => self.analog_spec(c).ge_spec(t.trigger),
                ControlKind::GyroDir => self.analog_spec(c).ge_spec(t.gyro_dir),
                ControlKind::Button | ControlKind::Touch => self.button_spec(c),
            },
        }
    }

    /// How far a control is pushed, in 255ths of its travel: sticks and triggers by their reading,
    /// a button wholly or not at all. A turn of the pad has no travel and a full pull no more of
    /// it, so both count as pushed wholly.
    pub open spec fn travel_spec(self, c: Control) -> int {
        match c {
            Control::L2FullPull | Control::R2FullPull => 255,
            _ => if c.kind_spec() == ControlKind::GyroDir {
                255
            } else {
                self.analog_spec(c).in_255ths_spec()
            },
        }
    }

    /// First button byte of the wire format: d-pad hat below, face buttons above.
    #[verifier::opaque]
    pub open spec fn wire_byte0(self, hat: u8) -> u8 {
        hat | flag8_spec(self.square, 0x10) | flag8_spec(self.cross, 0x20) | flag8_spec(
            self.circle,
            0x40,
        ) | flag8_spec(self.triangle, 0x80)
    }

    /// Second button byte of the wire format: shoulders, full pulls, menu buttons, stick clicks.
    #[verifier::opaque]
    pub open spec fn wire_byte1(self) -> u8 {
        flag8_spec(self.l1, 0x01) | flag8_spec(self.r1, 0x02) | flag8_spec(self.l2_raw == 255, 0x04)
            | flag8_spec(self.r2_raw == 255, 0x08) | flag8_spec(self.share, 0x10) | flag8_spec(
            self.options,
            0x20,
        ) | flag8_spec(self.l3, 0x40) | flag8_spec(self.r3, 0x80)
    }

    /// Third button byte of the wire format, without the report counter.
    #[verifier::opaque]
    pub open spec fn wire_byte2(self) -> u8 {
        flag8_spec(self.ps, 0x01) | flag8_spec(self.touch_button, 0x02)
    }

    /// Whether `word` is the packed button word: the three wire bytes from low to high, the hat
    /// showing the pressed directions with up before down and right before left.
    pub open spec fn is_packed(self, word: u32) -> bool {
        exists|hat: u8|
            {
                &&& #[trigger] is_hat(hat, self.dpad_up, self.dpad_right, self.dpad_down, self.dpad_left)
                &&& word == self.wire_byte0(hat) + 0x100 * self.wire_byte1() + 0x1_0000
                    * self.wire_byte2()
            }
    }

    /// The continuous reading of a control.
    pub fn analog(&self, c: Control) -> (r: Scalar)
        ensures
            r == self.analog_spec(c),
    {
        match c {
            Control::LxNeg => self.lx.neg().positive_part(),
            Control::LxPos => self.lx.positive_part(),
            Control::LyNeg => self.ly.neg().positive_part(),
            Control::LyPos => self.ly.positive_part(),
            Control::RxNeg => self.rx.neg().positive_part(),
            Control::RxPos => self.rx.positive_part(),
            Control::RyNeg => self.ry.neg().positive_part(),
            Control::RyPos => self.ry.positive_part(),
            Control::L2 | Control::L2FullPull => self.l2,
            Control::R2 | Control::R2FullPull => self.r2,
            Control::LsOuter => self.ls_ring,
            Control::RsOuter => self.rs_ring,
            Control::GyroXPos => self.motion.gyro_pitch.positive_part(),
            Control::GyroXNeg => self.motion.gyro_pitch.neg().positive_part(),
            Control::GyroZPos => self.motion.gyro_yaw.positive_part(),
            Control::GyroZNeg => self.motion.gyro_yaw.neg().positive_part(),
            _ => if self.button(c) {
                Scalar { bits: ONE_BITS }
            } else {
                Scalar { bits: 0 }
            },
        }
    }

    /// How far a control is pushed, in 255ths of its travel; 255 for a pressed button, for a turn
    /// of the pad and for a full pull.
    pub fn travel(&self, c: Control) -> (r: u8)
        ensures
            r == self.travel_spec(c),
    {
        match c {
            Control::L2FullPull | Control::R2FullPull => 255,
            _ => match c.kind() {
                ControlKind::GyroDir => 255,
                _ => self.analog(c).in_255ths(),
            },
        }
    }

    /// Whether a control counts as pressed.
    pub fn pressed(&self, c: Control, t: &Thresholds) -> (r: bool)
        ensures
            r == self.pressed_spec(c, *t),
    {
        match c {
            Control::L2FullPull => self.l2_raw == 255,
            Control::R2FullPull => self.r2_raw == 255,
            _ => match c.kind() {
                ControlKind::AxisDir => self.analog(c).ge(t.stick_dir),
                ControlKind::Trigger => self.analog(c).ge(t.trigger),
                ControlKind::GyroDir => self.analog(c).ge(t.gyro_dir),
                ControlKind::Button | ControlKind::Touch => self.button(c),
            },
        }
    }

    /// The decoded flag of a digital control.
    pub fn button(&self, c: Control) -> (r: bool)
        ensures
            r == self.button_spec(c),
    {
        match c {
            Control::Square => self.square,
            Control::Triangle => self.triangle,
            Control::Circle => self.circle,
            Control::Cross => self.cross,
            Control::DpadUp => self.dpad_up,
            Control::DpadDown => self.dpad_down,
            Control::DpadLeft => self.dpad_left,
            Control::DpadRight => self.dpad_right,
            Control::L1 => self.l1,
            Control::R1 => self.r1,
            Control::L3 => self.l3,
            Control::R3 => self.r3,
            Control::Ps => self.ps,
            Control::Share => self.share,
            Control::Options => self.options,
            Control::Mute => self.mute,
            Control::Capture => self.capture,
            Control::FnL => self.fn_l,
            Control::FnR => self.fn_r,
            Control::Blp => self.blp,
            Control::Brp => self.brp,
            Control::SideL => self.side_l,
            Control::SideR => self.side_r,
            Control::TouchButton => self.touch_button,
            _ => false,
        }
    }

    /// Reduces the report to sticks, triggers and the packed button word.
    pub fn to_input_sample(&self, m: &ReportMeta) -> (r: InputSample)
        ensures
            r.left == (StickPair { x: self.lx, y: self.ly }),
            r.right == (StickPair { x: self.rx, y: self.ry }),
            r.l2 == self.l2,
            r.r2 == self.r2,
            self.is_packed(r.buttons.0),
            r.seq == m.seq,
            r.dropped == m.dropped,
            r.is_duplicate == m.is_duplicate,
            r.dt_us == m.dt_us,
            r.host_qpc_ns == m.host_qpc_ns,
    {
        InputSample {
            left: StickPair { x: self.lx, y: self.ly },
            right: StickPair { x: self.rx, y: self.ry },
            l2: self.l2,
            r2: self.r2,
            buttons: Buttons(self.pack_ds_buttons()),
            seq: m.seq,
            dropped: m.dropped,
            is_duplicate: m.is_duplicate,
            dt_us: m.dt_us,
            host_qpc_ns: m.host_qpc_ns,
        }
    }

    /// Packs the digital controls back into the three button bytes of the wire format, low byte
    /// first. The report counter in the third byte is not restored.
    pub fn pack_ds_buttons(&self) -> (r: u32)
        ensures
            self.is_packed(r),
    {
        let hat: u8 = encode_dpad_hat(
            self.dpad_up,
            self.dpad_right,
            self.dpad_down,
            self.dpad_left,
        );
        let btn0: u8 = hat | flag8(self.square, 0x10) | flag8(self.cross, 0x20) | flag8(
            self.circle,
            0x40,
        ) | flag8(self.triangle, 0x80);
        let btn1: u8 = flag8(self.l1, 0x01) | flag8(self.r1, 0x02) | flag8(
            self.l2_raw == 255,
            0x04,
        ) | flag8(self.r2_raw == 255, 0x08) | flag8(self.share, 0x10) | flag8(self.options, 0x20)
            | flag8(self.l3, 0x40) | flag8(self.r3, 0x80);
        let btn2: u8 = flag8(self.ps, 0x01) | flag8(self.touch_button, 0x02);
        proof {
            reveal(ControllerState::wire_byte0);
            reveal(ControllerState::wire_byte1);
            reveal(ControllerState::wire_byte2);
        }
        btn0 as u32 + 0x100 * btn1 as u32 + 0x1_0000 * btn2 as u32
    }
}

impl Default for ControllerState {
    fn default() -> (r: ControllerState)
        ensures
            r.neutral(),
    {
        let z: Scalar = Scalar { bits: 0 };
        let t: TouchContact = TouchContact { is_active: false, id: 0, x: 0, y: 0 };
        ControllerState {
            lx: z,
            ly: z,
            rx: z,
            ry: z,
            ls_ring: z,
            rs_ring: z,
            l2: z,
            r2: z,
            l2_raw: 0,
            r2_raw: 0,
            square: false,
            triangle: false,
            circle: false,
            cross: false,
            dpad_up: false,
            dpad_down: false,
            dpad_left: false,
            dpad_right: false,
            l1: false,
            r1: false,
            l3: false,
            r3: false,
            ps: false,
            share: false,
            options: false,
            mute: false,
            capture: false,
            fn_l: false,
            fn_r: false,
            blp: false,
            brp: false,
            side_l: false,
            side_r: false,
            touch_button: false,
            touch: [t, t],
            motion: Motion::default(),
        }
    }
}

/// Whether `hat` is the hat value (0 = up, clockwise to 7, 8 = centred) of the given directions,
/// up hiding down and right hiding left.
pub open spec fn is_hat(hat: u8, up: bool, right: bool, down: bool, left: bool) -> bool {
    hat <= 8 && hat_directions(hat) == (up, right, down && !up, left && !right)
}

/// The hat value of four direction flags.
pub fn encode_dpad_hat(up: bool, right: bool, down: bool, left: bool) -> (r: u8)
    ensures
        is_hat(r, up, right, down, left),
{
    let d: bool = down && !up;
    let l: bool = left && !right;
    if up {
        if right {
            1
        } else if l {
            7
        } else {
            0
        }
    } else if d {
        if right {
            3
        } else if l {
            5
        } else {
            4
        }
    } else if right {
        2
    } else if l {
        6
    } else {
        8
    }
}

/// A hat value is determined by the directions that it stands for.
pub proof fn hat_is_unique(a: u8, b: u8, up: bool, right: bool, down: bool, left: bool)
    requires
        is_hat(a, up, right, down, left),
        is_hat(b, up, right, down, left),
    ensures
        a == b,
{
}

/// There is one packed button word.
pub proof fn packed_word_is_unique(s: ControllerState, a: u32, b: u32)
    requires
        s.is_packed(a),
        s.is_packed(b),
    ensures
        a == b,
{
    let ha = choose|hat: u8|
        #![trigger is_hat(hat, s.dpad_up, s.dpad_right, s.dpad_down, s.dpad_left)]
        is_hat(hat, s.dpad_up, s.dpad_right, s.dpad_down, s.dpad_left) && a == s.wire_byte0(hat)
            + 0x100 * s.wire_byte1() + 0x1_0000 * s.wire_byte2();
    let hb = choose|hat: u8|
        #![trigger is_hat(hat, s.dpad_up, s.dpad_right, s.dpad_down, s.dpad_left)]
        is_hat(hat, s.dpad_up, s.dpad_right, s.dpad_down, s.dpad_left) && b == s.wire_byte0(hat)
            + 0x100 * s.wire_byte1() + 0x1_0000 * s.wire_byte2();
    hat_is_unique(ha, hb, s.dpad_up, s.dpad_right, s.dpad_down, s.dpad_left);
}

/// Whether `pos` and `neg` are the two halves of `v`: a value above zero shows in the first, one
/// below zero, turned over, in the second, and nothing else shows in either.
pub open spec fn are_halves(v: Scalar, pos: Scalar, neg: Scalar) -> bool {
    if 0 < v.bits <= 0x7FF0_0000_0000_0000 {
        pos == v && neg.bits == 0
    } else if 0x8000_0000_0000_0000 < v.bits <= 0xFFF0_0000_0000_0000 {
        pos.bits == 0 && neg.bits == v.bits - 0x8000_0000_0000_0000
    } else {
        pos.bits == 0 && neg.bits == 0
    }
}

/// Every stick axis and both turning rates show in their two halves, each in its own; triggers and
/// rings read as they are.
pub proof fn readings_come_from_their_fields(s: ControllerState)
    ensures
        are_halves(s.lx, s.analog_spec(Control::LxPos), s.analog_spec(Control::LxNeg)),
        are_halves(s.ly, s.analog_spec(Control::LyPos), s.analog_spec(Control::LyNeg)),
        are_halves(s.rx, s.analog_spec(Control::RxPos), s.analog_spec(Control::RxNeg)),
        are_halves(s.ry, s.analog_spec(Control::RyPos), s.analog_spec(Control::RyNeg)),
        are_halves(
            s.motion.gyro_pitch,
            s.analog_spec(Control::GyroXPos),
            s.analog_spec(Control::GyroXNeg),
        ),
        are_halves(
            s.motion.gyro_yaw,
            s.analog_spec(Control::GyroZPos),
            s.analog_spec(Control::GyroZNeg),
        ),
        s.analog_spec(Control::L2) == s.l2 && s.analog_spec(Control::L2FullPull) == s.l2,
        s.analog_spec(Control::R2) == s.r2 && s.analog_spec(Control::R2FullPull) == s.r2,
        s.analog_spec(Control::LsOuter) == s.ls_ring,
        s.analog_spec(Control::RsOuter) == s.rs_ring,
{
}

/// A digital control reads one while its flag is set and zero otherwise, and counts as pressed
/// exactly then, whatever the thresholds; zones of the touchpad that no report carries never do.
pub proof fn buttons_read_all_or_nothing(s: ControllerState, c: Control, t: Thresholds)
    requires
        c.kind_spec() == ControlKind::Button || c.kind_spec() == ControlKind::Touch,
    ensures
        s.analog_spec(c).bits == (if s.pressed_spec(c, t) {
            0x3FF0_0000_0000_0000u64
        } else {
            0
        }),
        s.travel_spec(c) == (if s.pressed_spec(c, t) {
            255int
        } else {
            0
        }),
        c is TouchLeft || c is TouchRight || c is TouchUpper || c is TouchMulti ==> !s.pressed_spec(
            c,
            t,
        ),
{
}

/// A half-axis counts as pressed from the stick threshold up, a trigger or ring from the trigger
/// threshold up, a turn from the turning threshold up; a full pull counts with the raw byte at its
/// end and not before, whatever the thresholds.
pub proof fn readings_press_from_their_thresholds(s: ControllerState, c: Control, t: Thresholds)
    ensures
        c.kind_spec() == ControlKind::AxisDir ==> (s.pressed_spec(c, t) <==> s.analog_spec(c).ge_spec(
            t.stick_dir,
        )),
        c is L2 || c is R2 || c is LsOuter || c is RsOuter ==> (s.pressed_spec(c, t)
            <==> s.analog_spec(c).ge_spec(t.trigger)),
        c.kind_spec() == ControlKind::GyroDir ==> (s.pressed_spec(c, t) <==> s.analog_spec(c).ge_spec(
            t.gyro_dir,
        )),
        s.pressed_spec(Control::L2FullPull, t) <==> s.l2_raw == 255,
        s.pressed_spec(Control::R2FullPull, t) <==> s.r2_raw == 255,
{
}

/// Every digital control reads its own flag.
pub proof fn flags_belong_to_their_controls(s: ControllerState)
    ensures
        s.button_spec(Control::Square) == s.square && s.button_spec(Control::Triangle) == s.triangle,
        s.button_spec(Control::Circle) == s.circle && s.button_spec(Control::Cross) == s.cross,
        s.button_spec(Control::DpadUp) == s.dpad_up && s.button_spec(Control::DpadDown)
            == s.dpad_down,
        s.button_spec(Control::DpadLeft) == s.dpad_left && s.button_spec(Control::DpadRight)
            == s.dpad_right,
        s.button_spec(Control::L1) == s.l1 && s.button_spec(Control::R1) == s.r1,
        s.button_spec(Control::L3) == s.l3 && s.button_spec(Control::R3) == s.r3,
        s.button_spec(Control::Ps) == s.ps && s.button_spec(Control::TouchButton) == s.touch_button,
        s.button_spec(Control::Share) == s.share && s.button_spec(Control::Options) == s.options,
        s.button_spec(Control::Mute) == s.mute && s.button_spec(Control::Capture) == s.capture,
        s.button_spec(Control::FnL) == s.fn_l && s.button_spec(Control::FnR) == s.fn_r,
        s.button_spec(Control::Blp) == s.blp && s.button_spec(Control::Brp) == s.brp,
        s.button_spec(Control::SideL) == s.side_l && s.button_spec(Control::SideR) == s.side_r,
{
}

/// Sticks, triggers and rings travel as far as they read; turns and full pulls all the way.
pub proof fn travel_follows_the_reading(s: ControllerState, c: Control)
    ensures
        c.kind_spec() == ControlKind::GyroDir || c is L2FullPull || c is R2FullPull
            ==> s.travel_spec(c) == 255,
        c.kind_spec() == ControlKind::AxisDir || c is L2 || c is R2 || c is LsOuter || c is RsOuter
            ==> s.travel_spec(c) == s.analog_spec(c).in_255ths_spec(),
{
}

/// A quarter turn of the pad's directions is two steps of the hat: the steps go clockwise from up
/// at 0, each odd step shows both its neighbours, and from 8 on nothing is shown.
pub proof fn hat_turns_clockwise(hat: u8)
    ensures
        hat_directions(0) == (true, false, false, false),
        hat_directions(1) == (true, true, false, false),
        hat < 8 ==> ({
            let (up, right, down, left) = hat_directions(hat);
            hat_directions(((hat + 2) % 8) as u8) == (left, up, right, down)
        }),
        hat >= 8 ==> hat_directions(hat) == (false, false, false, false),
{
}

} // verus!
