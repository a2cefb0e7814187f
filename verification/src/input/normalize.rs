//! Raw bytes and words to exact canonical axis values.

use vstd::prelude::*;

use crate::axis::{AxisRatio, RawStickFormat};

verus! {

/// The axis value of an 8-bit stick byte: 0 at one end, 128 at rest, 255 at the other end.
pub fn u8_stick_to_axis(v: u8) -> (r: AxisRatio)
    ensures
        r == RawStickFormat::ds_8bit_spec().to_axis_spec(v as int),
        r == (if v >= 128 {
            AxisRatio { num: (v - 128) as i64, den: 127 }
        } else {
            AxisRatio { num: (v - 128) as i64, den: 128 }
        }),
{
    RawStickFormat::ds_8bit().to_axis(v as i32)
}

/// The axis value of a signed 16-bit thumbstick reading.
pub fn signed16_to_axis(v: i16) -> (r: AxisRatio)
    ensures
        r == RawStickFormat::xinput_16_spec().to_axis_spec(v as int),
        r == (if v >= 0 {
            AxisRatio { num: v as i64, den: 32767 }
        } else {
            AxisRatio { num: v as i64, den: 32768 }
        }),
{
    RawStickFormat::xinput_16().to_axis(v as i32)
}

/// The pull of an 8-bit trigger byte, in 255ths.
pub open spec fn trigger_ratio(v: u8) -> AxisRatio {
    AxisRatio { num: v as i64, den: 255 }
}

/// The pull of an 8-bit trigger byte, in 255ths.
pub fn u8_trigger(v: u8) -> (r: AxisRatio)
    ensures
        r == trigger_ratio(v),
{
    AxisRatio { num: v as i64, den: 255 }
}

/// A trigger byte runs from no pull at 0 to the whole pull at 255, in even steps.
pub proof fn trigger_bytes_run_evenly(a: u8, b: u8)
    ensures
        trigger_ratio(0).num == 0,
        trigger_ratio(255).num == trigger_ratio(255).den,
        trigger_ratio(a).den == trigger_ratio(b).den > 0,
        trigger_ratio(b).num - trigger_ratio(a).num == b - a,
{
}

/// A signed 16-bit reading runs from one end at -32768 over rest at 0 to the other end at 32767,
/// evenly on each side.
pub proof fn words_run_from_end_to_end(v: i16)
    ensures
        ({
            let r = RawStickFormat::xinput_16_spec().to_axis_spec(v as int);
            &&& r.num == v
            &&& v >= 0 ==> r.den == 32767
            &&& v < 0 ==> r.den == 32768
        }),
{
}

} // verus!
