//! Decoding of the 64-byte USB input report.
//!
//! | byte   | content                                                          |
//! |--------|------------------------------------------------------------------|
//! | 0      | report number, 1                                                 |
//! | 1 - 4  | left X, left Y, right X, right Y                                 |
//! | 5      | d-pad hat (low nibble), Square, Cross, Circle, Triangle          |
//! | 6      | L1, R1, L2 click, R2 click, Share, Options, L3, R3               |
//! | 7      | PS, touchpad click, report counter (upper six bits)              |
//! | 8, 9   | left and right trigger                                           |
//! | 10, 11 | device timestamp, low byte first                                 |
//! | 35-38  | first finger: number and contact bit, then X and Y of 12 bits    |
//! | 39-42  | second finger, likewise                                          |
//! | 43     | mute, function buttons and paddles, on devices that have them    |

use vstd::prelude::*;

use crate::axis::{AxisRatio, RawStickFormat};
use crate::flags::flag8_spec;
use crate::input::normalize::u8_stick_to_axis;
use crate::input::state::{is_hat, ControllerState, Motion, TouchContact};
use crate::input::SourceMeta;
use crate::scalar::Scalar;

verus! {

/// First byte of the touch data.
pub const TOUCH_DATA_OFFSET: usize = 35;

/// Width of the touch grid: X is 0 to 1919.
pub const TOUCH_RES_X: u16 = 1920;

/// Height of the touch grid: Y is 0 to 941.
pub const TOUCH_RES_Y: u16 = 942;

/// Last byte of the touch data.
pub const TOUCH_TAIL_LAST: usize = 42;

/// Number of the USB input report.
pub const DS_USB_REPORT_ID: u8 = 0x01;

/// Length of the USB input report.
pub const DS_USB_REPORT_LEN: usize = 64;

/// Byte with the mute, function and paddle bits of the extended report.
pub const EDGE_FN_BYTE: usize = 43;

/// Mute bit.
pub const EDGE_MUTE: u8 = 0x04;

/// Left function button bit.
pub const EDGE_FN_L: u8 = 0x10;

/// Right function button bit.
pub const EDGE_FN_R: u8 = 0x20;

/// Back-left paddle bit.
pub const EDGE_BLP: u8 = 0x40;

/// Back-right paddle bit.
pub const EDGE_BRP: u8 = 0x80;

/// The integer fields of a report.
#[derive(Clone, Copy, Debug, PartialEq, Eq, Structural)]
pub struct DsReport {
    pub lx: u8,
    pub ly: u8,
    pub rx: u8,
    pub ry: u8,
    pub l2: u8,
    pub r2: u8,
    /// Six-bit report counter.
    pub counter: u8,
    /// Device timestamp.
    pub sensor_ts: u16,
    pub btn0: u8,
    pub btn1: u8,
    pub btn2: u8,
}

/// The fields of the report in `buf`.
pub open spec fn report_fields(buf: Seq<u8>) -> DsReport {
    DsReport {
        lx: buf[1],
        ly: buf[2],
        rx: buf[3],
        ry: buf[4],
        l2: buf[8],
        r2: buf[9],
        counter: buf[7] / 4,
        sensor_ts: (buf[11] * 0x100 + buf[10]) as u16,
        btn0: buf[5],
        btn1: buf[6],
        btn2: buf[7],
    }
}

/// The report that `buf` holds, if it is a whole USB input report.
pub open spec fn parsed(buf: Seq<u8>) -> Option<DsReport> {
    if buf.len() >= DS_USB_REPORT_LEN && buf[0] == DS_USB_REPORT_ID {
        Some(report_fields(buf))
    } else {
        None
    }
}

/// Reads the fields of a USB input report; `None` where the buffer is too short or holds another
/// report.
pub fn parse_ds_usb_report(buf: &[u8]) -> (r: Option<DsReport>)
    ensures
        r == parsed(buf@),
{
    if buf.len() < DS_USB_REPORT_LEN || buf[0] != DS_USB_REPORT_ID {
        return None;
    }
    Some(
        DsReport {
            lx: buf[1],
            ly: buf[2],
            rx: buf[3],
            ry: buf[4],
            l2: buf[8],
            r2: buf[9],
            counter: buf[7] / 4,
            sensor_ts: buf[11] as u16 * 0x100 + buf[10] as u16,
            btn0: buf[5],
            btn1: buf[6],
            btn2: buf[7],
        },
    )
}

/// One stick as exact quotients, up and right positive.
#[derive(Clone, Copy, Debug, PartialEq, Eq, Structural)]
pub struct StickRatio {
    pub x: AxisRatio,
    pub y: AxisRatio,
}

/// The quotient of one stick byte.
pub open spec fn stick_ratio(raw: u8) -> AxisRatio {
    RawStickFormat::ds_8bit_spec().to_axis_spec(raw as int)
}

/// The quotient of a vertical stick byte, which is low when the stick is up.
pub open spec fn upward_ratio(raw: u8) -> AxisRatio {
    AxisRatio { num: (-stick_ratio(raw).num) as i64, den: stick_ratio(raw).den }
}

/// The left and right stick of a report as exact quotients.
pub fn ds_report_to_sticks(r: &DsReport) -> (s: (StickRatio, StickRatio))
    ensures
        s.0 == (StickRatio { x: stick_ratio(r.lx), y: upward_ratio(r.ly) }),
        s.1 == (StickRatio { x: stick_ratio(r.rx), y: upward_ratio(r.ry) }),
{
    (
        StickRatio { x: u8_stick_to_axis(r.lx), y: u8_stick_to_axis(r.ly).neg() },
        StickRatio { x: u8_stick_to_axis(r.rx), y: u8_stick_to_axis(r.ry).neg() },
    )
}

/// The directions (up, right, down, left) of a hat value: 0 is up, 2 right, 4 down, 6 left, odd
/// values lie between their neighbours, and 8 or more is centred.
pub open spec fn hat_directions(hat: u8) -> (bool, bool, bool, bool) {
    (
        hat == 7 || hat == 0 || hat == 1,
        1 <= hat <= 3,
        3 <= hat <= 5,
        5 <= hat <= 7,
    )
}

/// The directions (up, right, down, left) of the hat in the low nibble.
pub fn decode_dpad_hat(nibble: u8) -> (r: (bool, bool, bool, bool))
    ensures
        r == hat_directions((nibble % 16) as u8),
{
    let h: u8 = nibble % 16;
    (h == 7 || h <= 1, 1 <= h && h <= 3, 3 <= h && h <= 5, 5 <= h && h <= 7)
}

/// `a`, or `b` where that is smaller.
pub open spec fn lesser(a: int, b: int) -> int {
    if a <= b {
        a
    } else {
        b
    }
}

/// The finger whose four bytes start at `base`: seven bits of number below a bit that is set while
/// the finger is off the pad, then 12 bits of X and 12 bits of Y, held inside the grid. A slot
/// beyond the end of the buffer holds no finger.
pub open spec fn contact_at(buf: Seq<u8>, base: int) -> TouchContact {
    if base + 3 >= buf.len() {
        TouchContact::none_spec()
    } else {
        TouchContact {
            is_active: buf[base] < 0x80,
            id: (buf[base] % 0x80) as u8,
            x: lesser(buf[base + 1] + (buf[base + 2] % 16) * 0x100, 1919) as u16,
            y: lesser(buf[base + 2] / 16 + buf[base + 3] * 16, 941) as u16,
        }
    }
}

/// Decodes the finger whose bytes start at `base`.
pub fn decode_touch_contact(buf: &[u8], base: usize) -> (r: TouchContact)
    requires
        base + 3 <= usize::MAX,
    ensures
        r == contact_at(buf@, base as int),
{
    if base + 3 >= buf.len() {
        return TouchContact::default();
    }
    let x: u16 = buf[base + 1] as u16 + (buf[base + 2] % 16) as u16 * 0x100;
    let y: u16 = (buf[base + 2] / 16) as u16 + buf[base + 3] as u16 * 16;
    TouchContact {
        is_active: buf[base] < 0x80,
        id: buf[base] % 0x80,
        x: if x <= TOUCH_RES_X - 1 {
            x
        } else {
            TOUCH_RES_X - 1
        },
        y: if y <= TOUCH_RES_Y - 1 {
            y
        } else {
            TOUCH_RES_Y - 1
        },
    }
}

/// The two fingers of a report; a buffer that ends before the touch data holds none.
pub open spec fn touch_of(buf: Seq<u8>) -> Seq<TouchContact> {
    if buf.len() <= TOUCH_TAIL_LAST {
        seq![TouchContact::none_spec(), TouchContact::none_spec()]
    } else {
        seq![contact_at(buf, 35), contact_at(buf, 39)]
    }
}

/// Decodes both fingers.
pub fn decode_touch(buf: &[u8]) -> (r: [TouchContact; 2])
    ensures
        r@ == touch_of(buf@),
{
    if buf.len() <= TOUCH_TAIL_LAST {
        let none: TouchContact = TouchContact::default();
        return [none, none];
    }
    [decode_touch_contact(buf, TOUCH_DATA_OFFSET), decode_touch_contact(buf, TOUCH_DATA_OFFSET + 4)]
}

/// The buttons that only the extended report carries.
#[derive(Clone, Copy, Debug, PartialEq, Eq, Structural)]
pub struct EdgeBits {
    pub mute: bool,
    pub capture: bool,
    pub fn_l: bool,
    pub fn_r: bool,
    pub blp: bool,
    pub brp: bool,
    pub side_l: bool,
    pub side_r: bool,
}

/// The extended buttons of a report: all released unless the device has them and the buffer
/// reaches them. No bit is known for capture and the side buttons, which always read released.
pub open spec fn edge_of(buf: Seq<u8>, is_edge: bool) -> EdgeBits {
    let present = is_edge && buf.len() > EDGE_FN_BYTE;
    EdgeBits {
        mute: present && buf[43] & EDGE_MUTE != 0,
        capture: false,
        fn_l: present && buf[43] & EDGE_FN_L != 0,
        fn_r: present && buf[43] & EDGE_FN_R != 0,
        blp: present && buf[43] & EDGE_BLP != 0,
        brp: present && buf[43] & EDGE_BRP != 0,
        side_l: false,
        side_r: false,
    }
}

/// Decodes the extended buttons.
pub fn decode_edge_bits(buf: &[u8], is_edge: bool) -> (r: EdgeBits)
    ensures
        r == edge_of(buf@, is_edge),
{
    if !is_edge || buf.len() <= EDGE_FN_BYTE {
        return EdgeBits {
            mute: false,
            capture: false,
            fn_l: false,
            fn_r: false,
            blp: false,
            brp: false,
            side_l: false,
            side_r: false,
        };
    }
    let fb: u8 = buf[EDGE_FN_BYTE];
    EdgeBits {
        mute: fb & EDGE_MUTE != 0,
        capture: false,
        fn_l: fb & EDGE_FN_L != 0,
        fn_r: fb & EDGE_FN_R != 0,
        blp: fb & EDGE_BLP != 0,
        brp: fb & EDGE_BRP != 0,
        side_l: false,
        side_r: false,
    }
}

/// The continuous readings of a report as doubles: the quotients of [`ds_report_to_sticks`] and of
/// the trigger bytes, divided out, and the sticks' distances from their centres.
#[derive(Clone, Copy, Debug, PartialEq, Eq, Structural)]
pub struct AxisValues {
    pub lx: Scalar,
    pub ly: Scalar,
    pub rx: Scalar,
    pub ry: Scalar,
    pub ls_ring: Scalar,
    pub rs_ring: Scalar,
    pub l2: Scalar,
    pub r2: Scalar,
}

impl AxisValues {
    /// Whether `s` carries these readings.
    pub open spec fn carried_by(self, s: ControllerState) -> bool {
        &&& s.lx == self.lx && s.ly == self.ly && s.rx == self.rx && s.ry == self.ry
        &&& s.ls_ring == self.ls_ring && s.rs_ring == self.rs_ring
        &&& s.l2 == self.l2 && s.r2 == self.r2
    }
}

/// Whether `s` has the digital controls of the three button bytes and the raw triggers of `r`.
pub open spec fn buttons_decoded(r: DsReport, s: ControllerState) -> bool {
    &&& s.l2_raw == r.l2 && s.r2_raw == r.r2
    &&& s.square == (r.btn0 & 0x10 != 0)
    &&& s.cross == (r.btn0 & 0x20 != 0)
    &&& s.circle == (r.btn0 & 0x40 != 0)
    &&& s.triangle == (r.btn0 & 0x80 != 0)
    &&& (s.dpad_up, s.dpad_right, s.dpad_down, s.dpad_left) == hat_directions((r.btn0 % 16) as u8)
    &&& s.l1 == (r.btn1 & 0x01 != 0)
    &&& s.r1 == (r.btn1 & 0x02 != 0)
    &&& s.share == (r.btn1 & 0x10 != 0)
    &&& s.options == (r.btn1 & 0x20 != 0)
    &&& s.l3 == (r.btn1 & 0x40 != 0)
    &&& s.r3 == (r.btn1 & 0x80 != 0)
    &&& s.ps == (r.btn2 & 0x01 != 0)
    &&& s.touch_button == (r.btn2 & 0x02 != 0)
}

/// Whether `s` has the extended buttons `e`.
pub open spec fn edge_decoded(e: EdgeBits, s: ControllerState) -> bool {
    &&& s.mute == e.mute && s.capture == e.capture
    &&& s.fn_l == e.fn_l && s.fn_r == e.fn_r
    &&& s.blp == e.blp && s.brp == e.brp
    &&& s.side_l == e.side_l && s.side_r == e.side_r
}

/// Decodes a parsed report and its buffer into the structured state. `axes` are the continuous
/// readings of the same report. Motion sensors are not decoded and read zero.
pub fn decode_controller_state(
    r: &DsReport,
    buf: &[u8],
    meta: &SourceMeta,
    axes: &AxisValues,
) -> (s: ControllerState)
    ensures
        axes.carried_by(s),
        buttons_decoded(*r, s),
        edge_decoded(edge_of(buf@, meta.is_edge), s),
        s.touch@ == touch_of(buf@),
        s.motion.at_rest(),
{
    let (dpad_up, dpad_right, dpad_down, dpad_left) = decode_dpad_hat(r.btn0);
    let edge: EdgeBits = decode_edge_bits(buf, meta.is_edge);
    let touch: [TouchContact; 2] = decode_touch(buf);
    ControllerState {
        lx: axes.lx,
        ly: axes.ly,
        rx: axes.rx,
        ry: axes.ry,
        ls_ring: axes.ls_ring,
        rs_ring: axes.rs_ring,
        l2: axes.l2,
        r2: axes.r2,
        l2_raw: r.l2,
        r2_raw: r.r2,
        square: r.btn0 & 0x10 != 0,
        cross: r.btn0 & 0x20 != 0,
        circle: r.btn0 & 0x40 != 0,
        triangle: r.btn0 & 0x80 != 0,
        dpad_up,
        dpad_down,
        dpad_left,
        dpad_right,
        l1: r.btn1 & 0x01 != 0,
        r1: r.btn1 & 0x02 != 0,
        share: r.btn1 & 0x10 != 0,
        options: r.btn1 & 0x20 != 0,
        l3: r.btn1 & 0x40 != 0,
        r3: r.btn1 & 0x80 != 0,
        ps: r.btn2 & 0x01 != 0,
        touch_button: r.btn2 & 0x02 != 0,
        mute: edge.mute,
        capture: edge.capture,
        fn_l: edge.fn_l,
        fn_r: edge.fn_r,
        blp: edge.blp,
        brp: edge.brp,
        side_l: edge.side_l,
        side_r: edge.side_r,
        touch,
        motion: Motion::default(),
    }
}

/// Packing undoes decoding: the first button byte comes back whole (a hat above 8 as 8, centred),
/// the second byte with its two trigger bits replaced by the full-pull flags, and of the third
/// byte the two buttons.
pub proof fn packing_undoes_decoding(r: DsReport, s: ControllerState, word: u32)
    requires
        buttons_decoded(r, s),
        s.is_packed(word),
    ensures
        ({
            let b0: u8 = (word % 0x100) as u8;
            let b1: u8 = (word / 0x100 % 0x100) as u8;
            let b2: u8 = (word / 0x1_0000) as u8;
            &&& word < 0x4_0000
            &&& b0 & 0xF0 == r.btn0 & 0xF0
            &&& b0 % 16 == lesser((r.btn0 % 16) as int, 8)
            &&& b1 & 0xF3 == r.btn1 & 0xF3
            &&& (b1 & 0x04 != 0) == (r.l2 == 255)
            &&& (b1 & 0x08 != 0) == (r.r2 == 255)
            &&& b2 == r.btn2 & 0x03
        }),
{
    let hat = choose|hat: u8|
        #![trigger is_hat(hat, s.dpad_up, s.dpad_right, s.dpad_down, s.dpad_left)]
        is_hat(hat, s.dpad_up, s.dpad_right, s.dpad_down, s.dpad_left) && word == s.wire_byte0(hat)
            + 0x100 * s.wire_byte1() + 0x1_0000 * s.wire_byte2();
    hat_of_nibble((r.btn0 % 16) as u8, hat);
    wire_bytes_kept(r, s, hat);
    split_word(word, s.wire_byte0(hat), s.wire_byte1(), s.wire_byte2());
}

/// What the three wire bytes of a decoded report keep of the original ones.
proof fn wire_bytes_kept(r: DsReport, s: ControllerState, hat: u8)
    requires
        buttons_decoded(r, s),
        hat <= 8,
    ensures
        s.wire_byte0(hat) & 0xF0 == r.btn0 & 0xF0,
        s.wire_byte0(hat) % 16 == hat,
        s.wire_byte1() & 0xF3 == r.btn1 & 0xF3,
        (s.wire_byte1() & 0x04 != 0) == (r.l2 == 255),
        (s.wire_byte1() & 0x08 != 0) == (r.r2 == 255),
        s.wire_byte2() == r.btn2 & 0x03,
        s.wire_byte2() <= 3,
{
    reveal(ControllerState::wire_byte0);
    reveal(ControllerState::wire_byte1);
    reveal(ControllerState::wire_byte2);
    byte0_kept(hat, r.btn0, s.square, s.cross, s.circle, s.triangle);
    byte1_kept(r.btn1, s.l1, s.r1, s.l2_raw == 255, s.r2_raw == 255, s.share, s.options, s.l3, s.r3);
    byte2_kept(r.btn2, s.ps, s.touch_button);
}

/// The hat of the directions of a nibble is the nibble, or 8 where that is larger.
proof fn hat_of_nibble(n: u8, hat: u8)
    requires
        n < 16,
        is_hat(
            hat,
            hat_directions(n).0,
            hat_directions(n).1,
            hat_directions(n).2,
            hat_directions(n).3,
        ),
    ensures
        hat == lesser(n as int, 8),
{
}

/// The three bytes of a word built from them.
proof fn split_word(word: u32, b0: u8, b1: u8, b2: u8)
    requires
        word == b0 + 0x100 * b1 + 0x1_0000 * b2,
        b2 <= 3,
    ensures
        word < 0x4_0000,
        (word % 0x100) as u8 == b0,
        (word / 0x100 % 0x100) as u8 == b1,
        (word / 0x1_0000) as u8 == b2,
{
}

/// The first button byte is made of its hat and its four face bits.
proof fn byte0_kept(hat: u8, x: u8, sq: bool, cr: bool, ci: bool, tr: bool)
    by (bit_vector)
    requires
        hat <= 8,
        sq == (x & 0x10 != 0),
        cr == (x & 0x20 != 0),
        ci == (x & 0x40 != 0),
        tr == (x & 0x80 != 0),
    ensures
        (hat | flag8_spec(sq, 0x10) | flag8_spec(cr, 0x20) | flag8_spec(ci, 0x40) | flag8_spec(
            tr,
            0x80,
        )) & 0xF0 == x & 0xF0,
        (hat | flag8_spec(sq, 0x10) | flag8_spec(cr, 0x20) | flag8_spec(ci, 0x40) | flag8_spec(
            tr,
            0x80,
        )) % 16 == hat,
{
}

/// The second button byte is made of its eight bits.
proof fn byte1_kept(
    x: u8,
    l1: bool,
    r1: bool,
    l2: bool,
    r2: bool,
    sh: bool,
    op: bool,
    l3: bool,
    r3: bool,
)
    by (bit_vector)
    requires
        l1 == (x & 0x01 != 0),
        r1 == (x & 0x02 != 0),
        sh == (x & 0x10 != 0),
        op == (x & 0x20 != 0),
        l3 == (x & 0x40 != 0),
        r3 == (x & 0x80 != 0),
    ensures
        (flag8_spec(l1, 0x01) | flag8_spec(r1, 0x02) | flag8_spec(l2, 0x04) | flag8_spec(r2, 0x08)
            | flag8_spec(sh, 0x10) | flag8_spec(op, 0x20) | flag8_spec(l3, 0x40) | flag8_spec(
            r3,
            0x80,
        )) & 0xF3 == x & 0xF3,
        ((flag8_spec(l1, 0x01) | flag8_spec(r1, 0x02) | flag8_spec(l2, 0x04) | flag8_spec(r2, 0x08)
            | flag8_spec(sh, 0x10) | flag8_spec(op, 0x20) | flag8_spec(l3, 0x40) | flag8_spec(
            r3,
            0x80,
        )) & 0x04 != 0) == l2,
        ((flag8_spec(l1, 0x01) | flag8_spec(r1, 0x02) | flag8_spec(l2, 0x04) | flag8_spec(r2, 0x08)
            | flag8_spec(sh, 0x10) | flag8_spec(op, 0x20) | flag8_spec(l3, 0x40) | flag8_spec(
            r3,
            0x80,
        )) & 0x08 != 0) == r2,
{
}

/// The third button byte is made of its two lowest bits.
proof fn byte2_kept(x: u8, ps: bool, tb: bool)
    by (bit_vector)
    requires
        ps == (x & 0x01 != 0),
        tb == (x & 0x02 != 0),
    ensures
        (flag8_spec(ps, 0x01) | flag8_spec(tb, 0x02)) == x & 0x03,
        x & 0x03 <= 3,
{
}

/// A report is read from 64 bytes up that start with a one, and from nothing else. Its fields lie
/// at fixed bytes; the counter is what two bits leave of its byte, and the stamp is sent low byte
/// first.
pub proof fn fields_lie_at_their_bytes(buf: Seq<u8>)
    ensures
        parsed(buf) is Some <==> buf.len() >= 64 && buf[0] == 1,
        parsed(buf) matches Some(r) ==> {
            &&& r.lx == buf[1] && r.ly == buf[2] && r.rx == buf[3] && r.ry == buf[4]
            &&& r.btn0 == buf[5] && r.btn1 == buf[6] && r.btn2 == buf[7]
            &&& r.l2 == buf[8] && r.r2 == buf[9]
            &&& 4 * r.counter <= buf[7] < 4 * r.counter + 4
            &&& r.sensor_ts == buf[10] + 256 * buf[11]
        },
{
}

/// A stick byte runs from one end at 0 over rest at 128 to the other end at 255, evenly on each
/// side; a vertical byte runs the other way.
pub proof fn stick_bytes_run_from_end_to_end(raw: u8)
    ensures
        stick_ratio(0).num == -stick_ratio(0).den,
        stick_ratio(128).num == 0,
        stick_ratio(255).num == stick_ratio(255).den,
        raw < 128 ==> stick_ratio(raw).den == 128 && stick_ratio(raw).num == raw - 128,
        raw >= 128 ==> stick_ratio(raw).den == 127 && stick_ratio(raw).num == raw - 128,
        upward_ratio(raw).num == -stick_ratio(raw).num,
        upward_ratio(raw).den == stick_ratio(raw).den,
{
}

/// The face buttons are the upper four bits of the first byte in the order square, cross, circle,
/// triangle. The second byte holds, from below, both shoulders, the two trigger switches, share,
/// options and the stick clicks. The third starts with the PS button and the touchpad.
pub proof fn buttons_lie_at_their_bits(r: DsReport, s: ControllerState)
    requires
        buttons_decoded(r, s),
    ensures
        s.l2_raw == r.l2 && s.r2_raw == r.r2,
        s.square == (r.btn0 / 16 % 2 == 1),
        s.cross == (r.btn0 / 32 % 2 == 1),
        s.circle == (r.btn0 / 64 % 2 == 1),
        s.triangle == (r.btn0 / 128 == 1),
        s.l1 == (r.btn1 % 2 == 1),
        s.r1 == (r.btn1 / 2 % 2 == 1),
        s.share == (r.btn1 / 16 % 2 == 1),
        s.options == (r.btn1 / 32 % 2 == 1),
        s.l3 == (r.btn1 / 64 % 2 == 1),
        s.r3 == (r.btn1 / 128 == 1),
        s.ps == (r.btn2 % 2 == 1),
        s.touch_button == (r.btn2 / 2 % 2 == 1),
        s.dpad_up == (r.btn0 % 16 == 7 || r.btn0 % 16 <= 1),
        s.dpad_right == (1 <= r.btn0 % 16 <= 3),
        s.dpad_down == (3 <= r.btn0 % 16 <= 5),
        s.dpad_left == (5 <= r.btn0 % 16 <= 7),
{
    bits_as_digits(r.btn0);
    bits_as_digits(r.btn1);
    bits_as_digits(r.btn2);
}

/// A bit of a byte is a binary digit of its value.
proof fn bits_as_digits(x: u8)
    by (bit_vector)
    ensures
        (x & 0x01 != 0) == (x % 2 == 1),
        (x & 0x02 != 0) == (x / 2 % 2 == 1),
        (x & 0x04 != 0) == (x / 4 % 2 == 1),
        (x & 0x10 != 0) == (x / 16 % 2 == 1),
        (x & 0x20 != 0) == (x / 32 % 2 == 1),
        (x & 0x40 != 0) == (x / 64 % 2 == 1),
        (x & 0x80 != 0) == (x / 128 == 1),
{
}

/// The extended buttons are digits of byte 43 of a device that has them; no other device and no
/// shorter buffer presses any of them, and capture and the side buttons are never pressed.
pub proof fn edge_buttons_lie_at_their_bits(buf: Seq<u8>, is_edge: bool)
    ensures
        ({
            let e = edge_of(buf, is_edge);
            let x = buf[43];
            &&& is_edge && buf.len() >= 44 ==> {
                &&& e.mute == (x / 4 % 2 == 1)
                &&& e.fn_l == (x / 16 % 2 == 1)
                &&& e.fn_r == (x / 32 % 2 == 1)
                &&& e.blp == (x / 64 % 2 == 1)
                &&& e.brp == (x / 128 == 1)
            }
            &&& !is_edge || buf.len() < 44 ==> !e.mute && !e.fn_l && !e.fn_r && !e.blp && !e.brp
            &&& !e.capture && !e.side_l && !e.side_r
        }),
{
    bits_as_digits(buf[43]);
}

/// A finger that is sent as a number below 128, a lift mark and two 12-bit positions comes back
/// with that number and those positions, held inside the grid, and touches unless the mark is set.
pub proof fn fingers_come_back(buf: Seq<u8>, base: int, id: int, lifted: bool, x: int, y: int)
    requires
        0 <= base,
        base + 3 < buf.len(),
        0 <= id < 128,
        0 <= x < 4096,
        0 <= y < 4096,
        buf[base] == id + (if lifted {
            128int
        } else {
            0
        }),
        buf[base + 1] == x % 256,
        buf[base + 2] == x / 256 + 16 * (y % 16),
        buf[base + 3] == y / 16,
    ensures
        ({
            let c = contact_at(buf, base);
            &&& c.is_active == !lifted
            &&& c.id == id
            &&& x <= 1919 ==> c.x == x
            &&& x > 1919 ==> c.x == 1919
            &&& y <= 941 ==> c.y == y
            &&& y > 941 ==> c.y == 941
        }),
{
}

/// The two fingers lie at bytes 35 and 39; a buffer that ends before byte 42 holds none.
pub proof fn fingers_lie_at_their_bytes(buf: Seq<u8>)
    ensures
        touch_of(buf).len() == 2,
        buf.len() >= 43 ==> touch_of(buf)[0] == contact_at(buf, 35) && touch_of(buf)[1]
            == contact_at(buf, 39),
        buf.len() < 43 ==> {
            &&& !touch_of(buf)[0].is_active && touch_of(buf)[0].x == 0 && touch_of(buf)[0].y == 0
            &&& !touch_of(buf)[1].is_active && touch_of(buf)[1].x == 0 && touch_of(buf)[1].y == 0
        },
{
}

/// The state has the buttons and readings of the parts it was decoded from, each in its own field.
pub proof fn parts_keep_their_names(e: EdgeBits, axes: AxisValues, s: ControllerState)
    requires
        edge_decoded(e, s),
        axes.carried_by(s),
    ensures
        s.mute == e.mute && s.capture == e.capture && s.fn_l == e.fn_l && s.fn_r == e.fn_r,
        s.blp == e.blp && s.brp == e.brp && s.side_l == e.side_l && s.side_r == e.side_r,
        s.lx == axes.lx && s.ly == axes.ly && s.rx == axes.rx && s.ry == axes.ry,
        s.ls_ring == axes.ls_ring && s.rs_ring == axes.rs_ring,
        s.l2 == axes.l2 && s.r2 == axes.r2,
{
}

} // verus!
