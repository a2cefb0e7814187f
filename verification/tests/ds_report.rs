use hyperion_core::axis::AxisRatio;
use hyperion_core::input::ds_report::{
    decode_controller_state, decode_touch, ds_report_to_sticks, parse_ds_usb_report, AxisValues,
    DsReport, DS_USB_REPORT_ID, EDGE_BLP, EDGE_BRP, EDGE_FN_BYTE, EDGE_FN_L, EDGE_FN_R, EDGE_MUTE,
    TOUCH_DATA_OFFSET, TOUCH_RES_X, TOUCH_RES_Y,
};
use hyperion_core::input::normalize::u8_trigger;
use hyperion_core::input::{
    Control, ControllerState, Motion, SourceMeta, Thresholds, TouchContact,
};
use hyperion_core::scalar::Scalar;

fn ratio(r: AxisRatio) -> f64 {
    r.num as f64 / r.den as f64
}

fn scalar(v: f64) -> Scalar {
    Scalar::from_bits(v.to_bits())
}

fn value(s: Scalar) -> f64 {
    f64::from_bits(s.to_bits())
}

const META: SourceMeta =
    SourceMeta { vid: 0x054C, pid: 0x0CE6, name: "test", stick_bits: 8, is_edge: false };

const EDGE_META: SourceMeta =
    SourceMeta { vid: 0x054C, pid: 0x0DF2, name: "edge", stick_bits: 8, is_edge: true };

fn axes(r: &DsReport) -> AxisValues {
    let (l, rr) = ds_report_to_sticks(r);
    let (lx, ly, rx, ry) = (ratio(l.x), ratio(l.y), ratio(rr.x), ratio(rr.y));
    AxisValues {
        lx: scalar(lx),
        ly: scalar(ly),
        rx: scalar(rx),
        ry: scalar(ry),
        ls_ring: scalar(lx.hypot(ly).min(1.0)),
        rs_ring: scalar(rx.hypot(ry).min(1.0)),
        l2: scalar(ratio(u8_trigger(r.l2))),
        r2: scalar(ratio(u8_trigger(r.r2))),
    }
}

fn decode(b: &[u8]) -> ControllerState {
    let r = parse_ds_usb_report(b).unwrap();
    decode_controller_state(&r, b, &META, &axes(&r))
}

fn decode_edge(b: &[u8]) -> ControllerState {
    let r = parse_ds_usb_report(b).unwrap();
    decode_controller_state(&r, b, &EDGE_META, &axes(&r))
}

fn synth(lx: u8, ly: u8, rx: u8, ry: u8, l2: u8, r2: u8, counter6: u8, ts: u16) -> [u8; 64] {
    let mut b = [0u8; 64];
    b[0] = DS_USB_REPORT_ID;
    b[1] = lx;
    b[2] = ly;
    b[3] = rx;
    b[4] = ry;
    b[7] = counter6 << 2;
    b[8] = l2;
    b[9] = r2;
    b[10] = (ts & 0xFF) as u8;
    b[11] = (ts >> 8) as u8;
    b[TOUCH_DATA_OFFSET] = 0x80;
    b[TOUCH_DATA_OFFSET + 4] = 0x80;
    b
}

fn set_touch(b: &mut [u8; 64], finger: usize, id: u8, x: u16, y: u16) {
    let base = TOUCH_DATA_OFFSET + finger * 4;
    b[base] = id & 0x7F;
    b[base + 1] = (x & 0xFF) as u8;
    b[base + 2] = (((y & 0x0F) << 4) | ((x >> 8) & 0x0F)) as u8;
    b[base + 3] = (y >> 4) as u8;
}

fn synth_btn(btn0: u8, btn1: u8, btn2: u8) -> [u8; 64] {
    let mut b = synth(0x80, 0x80, 0x80, 0x80, 0, 0, 0, 0);
    b[5] = btn0;
    b[6] = btn1;
    b[7] = btn2;
    b
}

#[test]
fn rejects_short_or_wrong_id() {
    assert!(parse_ds_usb_report(&[0u8; 63]).is_none());
    let mut b = [0u8; 64];
    b[0] = 0x11;
    assert!(parse_ds_usb_report(&b).is_none());
}

#[test]
fn parses_offsets() {
    let b = synth(0x10, 0x20, 0x30, 0x40, 0x55, 0x66, 0x2A, 0xBEEF);
    let r = parse_ds_usb_report(&b).expect("valid report");
    assert_eq!(r.lx, 0x10);
    assert_eq!(r.ly, 0x20);
    assert_eq!(r.rx, 0x30);
    assert_eq!(r.ry, 0x40);
    assert_eq!(r.l2, 0x55);
    assert_eq!(r.r2, 0x66);
    assert_eq!(r.counter, 0x2A);
    assert_eq!(r.sensor_ts, 0xBEEF);
}

#[test]
fn timestamp_is_little_endian() {
    let mut b = synth(128, 128, 128, 128, 0, 0, 0, 0);
    b[10] = 0x34;
    b[11] = 0x12;
    let r = parse_ds_usb_report(&b).unwrap();
    assert_eq!(r.sensor_ts, 0x1234);
}

#[test]
fn neutral_sticks_are_zero() {
    let b = synth(0x80, 0x80, 0x80, 0x80, 0, 0, 0, 0);
    let r = parse_ds_usb_report(&b).unwrap();
    let (l, rr) = ds_report_to_sticks(&r);
    assert_eq!((ratio(l.x), ratio(l.y)), (0.0, 0.0));
    assert_eq!((ratio(rr.x), ratio(rr.y)), (0.0, 0.0));
}

#[test]
fn up_is_positive_y() {
    let b = synth(0x80, 0x00, 0x80, 0x00, 0, 0, 0, 0);
    let r = parse_ds_usb_report(&b).unwrap();
    let (l, rr) = ds_report_to_sticks(&r);
    assert_eq!(ratio(l.y), 1.0);
    assert_eq!(ratio(rr.y), 1.0);
    let b2 = synth(0x80, 0xFF, 0x80, 0xFF, 0, 0, 0, 0);
    let r2 = parse_ds_usb_report(&b2).unwrap();
    let (l2, _) = ds_report_to_sticks(&r2);
    assert_eq!(ratio(l2.y), -1.0);
}

#[test]
fn x_axis_left_is_negative() {
    let b = synth(0x00, 0x80, 0xFF, 0x80, 0, 0, 0, 0);
    let r = parse_ds_usb_report(&b).unwrap();
    let (l, rr) = ds_report_to_sticks(&r);
    assert_eq!(ratio(l.x), -1.0);
    assert_eq!(ratio(rr.x), 1.0);
}

#[test]
fn button_bytes_carried_raw() {
    let mut b = synth(128, 128, 128, 128, 0, 0, 0, 0);
    b[5] = 0xA5;
    b[6] = 0x5A;
    b[7] = 0xC3;
    let r = parse_ds_usb_report(&b).unwrap();
    assert_eq!(r.btn0, 0xA5);
    assert_eq!(r.btn1, 0x5A);
    assert_eq!(r.btn2, 0xC3);
    assert_eq!(r.counter, 0x30);
}

#[test]
fn decode_sticks_equal_ds_report_to_sticks() {
    let b = synth(0x12, 0x34, 0xCD, 0xEF, 0x55, 0xAA, 0, 0);
    let r = parse_ds_usb_report(&b).unwrap();
    let (l, rr) = ds_report_to_sticks(&r);
    let s = decode_controller_state(&r, &b, &META, &axes(&r));
    assert_eq!(value(s.lx), ratio(l.x));
    assert_eq!(value(s.ly), ratio(l.y));
    assert_eq!(value(s.rx), ratio(rr.x));
    assert_eq!(value(s.ry), ratio(rr.y));
    assert_eq!(value(s.l2), ratio(u8_trigger(0x55)));
    assert_eq!(value(s.r2), ratio(u8_trigger(0xAA)));
    assert_eq!(s.l2_raw, 0x55);
    assert_eq!(s.r2_raw, 0xAA);
}

#[test]
fn every_btn0_high_nibble_bit_flips_the_right_face_button() {
    assert!(decode(&synth_btn(0x18, 0, 0)).square);
    assert!(decode(&synth_btn(0x28, 0, 0)).cross);
    assert!(decode(&synth_btn(0x48, 0, 0)).circle);
    assert!(decode(&synth_btn(0x88, 0, 0)).triangle);
    let s = decode(&synth_btn(0x28, 0, 0));
    assert!(s.cross && !s.square && !s.circle && !s.triangle);
}

#[test]
fn every_btn1_bit_flips_the_right_control() {
    assert!(decode(&synth_btn(8, 0x01, 0)).l1);
    assert!(decode(&synth_btn(8, 0x02, 0)).r1);
    assert!(decode(&synth_btn(8, 0x10, 0)).share);
    assert!(decode(&synth_btn(8, 0x20, 0)).options);
    assert!(decode(&synth_btn(8, 0x40, 0)).l3);
    assert!(decode(&synth_btn(8, 0x80, 0)).r3);
    let s = decode(&synth_btn(8, 0x40, 0));
    assert!(s.l3 && !s.r3 && !s.l1);
}

#[test]
fn every_btn2_bit_flips_the_right_control() {
    assert!(decode(&synth_btn(8, 0, 0x01)).ps);
    assert!(decode(&synth_btn(8, 0, 0x02)).touch_button);
    let s = decode(&synth_btn(8, 0, 0x02));
    assert!(s.touch_button && !s.ps);
}

#[test]
fn all_nine_dpad_nibbles_decode() {
    let cases = [
        (0u8, true, false, false, false),
        (1, true, true, false, false),
        (2, false, true, false, false),
        (3, false, true, true, false),
        (4, false, false, true, false),
        (5, false, false, true, true),
        (6, false, false, false, true),
        (7, true, false, false, true),
        (8, false, false, false, false),
    ];
    for (nib, up, right, down, left) in cases {
        let s = decode(&synth_btn(nib, 0, 0));
        assert_eq!(s.dpad_up, up, "nibble {nib} up");
        assert_eq!(s.dpad_right, right, "nibble {nib} right");
        assert_eq!(s.dpad_down, down, "nibble {nib} down");
        assert_eq!(s.dpad_left, left, "nibble {nib} left");
    }
}

#[test]
fn edge_fields_inert_when_not_edge_capable() {
    let s = decode(&synth_btn(0xF8, 0xFF, 0xFF));
    assert!(!s.mute && !s.capture && !s.fn_l && !s.fn_r);
    assert!(!s.blp && !s.brp && !s.side_l && !s.side_r);
    assert_eq!(s.touch, [TouchContact::default(); 2]);
    assert_eq!(s.motion, Motion::default());
}

#[test]
fn full_pull_digital_view_from_raw_trigger() {
    let t = Thresholds::default();
    let mut b = synth(0x80, 0x80, 0x80, 0x80, 255, 100, 0, 0);
    b[5] = 8;
    let s = decode(&b);
    assert!(s.pressed(Control::L2FullPull, &t));
    assert!(!s.pressed(Control::R2FullPull, &t));
    assert!((value(s.analog(Control::R2)) - 100.0 / 255.0).abs() < 1e-12);
}

#[test]
fn idle_report_decodes_two_inactive_contacts() {
    let s = decode(&synth_btn(8, 0, 0));
    assert_eq!(s.touch, [TouchContact::default(); 2]);
}

#[test]
fn active_contact_decodes_id_and_12bit_xy() {
    let mut b = synth_btn(8, 0, 0);
    set_touch(&mut b, 0, 0x2A, 0x123, 0x0F5);
    let s = decode(&b);
    assert!(s.touch[0].is_active, "high-bit-clear id => active");
    assert_eq!(s.touch[0].id, 0x2A);
    assert_eq!(s.touch[0].x, 0x123);
    assert_eq!(s.touch[0].y, 0x0F5);
    assert!(!s.touch[1].is_active);
}

#[test]
fn both_fingers_decode_independently() {
    let mut b = synth_btn(8, 0, 0);
    set_touch(&mut b, 0, 1, 100, 50);
    set_touch(&mut b, 1, 2, 1900, 900);
    let s = decode(&b);
    assert!(s.touch[0].is_active && s.touch[1].is_active);
    assert_eq!((s.touch[0].id, s.touch[0].x, s.touch[0].y), (1, 100, 50));
    assert_eq!((s.touch[1].id, s.touch[1].x, s.touch[1].y), (2, 1900, 900));
}

#[test]
fn touch_xy_clamped_to_grid() {
    let mut b = synth_btn(8, 0, 0);
    set_touch(&mut b, 0, 0, 0xFFF, 0xFFF);
    let s = decode(&b);
    assert_eq!(s.touch[0].x, TOUCH_RES_X - 1, "x clamps to 1919");
    assert_eq!(s.touch[0].y, TOUCH_RES_Y - 1, "y clamps to 941");
}

#[test]
fn short_buffer_keeps_default_touch() {
    assert_eq!(decode_touch(&[0u8; 10]), [TouchContact::default(); 2]);
    assert_eq!(decode_touch(&[0u8; 40]), [TouchContact::default(); 2]);
}

#[test]
fn edge_bits_decode_only_when_edge_capable() {
    let mut b = synth_btn(8, 0, 0);
    b[EDGE_FN_BYTE] = EDGE_MUTE | EDGE_FN_L | EDGE_FN_R | EDGE_BLP | EDGE_BRP;

    let non_edge = decode(&b);
    assert!(!non_edge.mute && !non_edge.capture && !non_edge.fn_l && !non_edge.fn_r);
    assert!(!non_edge.blp && !non_edge.brp);

    let edge = decode_edge(&b);
    assert!(edge.mute && edge.fn_l && edge.fn_r && edge.blp && edge.brp);
    assert!(
        !edge.capture,
        "capture is inert until its real bit is hardware-verified"
    );
    assert!(!edge.side_l && !edge.side_r);
}

#[test]
fn edge_individual_bits_isolated() {
    let only_mute = {
        let mut b = synth_btn(8, 0, 0);
        b[EDGE_FN_BYTE] = EDGE_MUTE;
        decode_edge(&b)
    };
    assert!(only_mute.mute && !only_mute.fn_l && !only_mute.blp && !only_mute.capture);
}

#[test]
fn packing_gives_the_wire_bytes_back() {
    for (b0, b1, b2) in [(0x28u8, 0x01u8, 0x02u8), (0xF8, 0xF3, 0x03), (0x03, 0x70, 0x01), (0x17, 0, 0)] {
        let s = decode(&synth_btn(b0, b1, b2));
        let w = s.pack_ds_buttons();
        assert_eq!((w & 0xFF) as u8, b0);
        assert_eq!(((w >> 8) & 0xF3) as u8, b1 & 0xF3);
        assert_eq!(((w >> 16) & 0x03) as u8, b2 & 0x03);
    }
}
