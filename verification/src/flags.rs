//! Single-bit terms for packing booleans into words.

use vstd::prelude::*;

verus! {

/// `mask` where `on` holds, no bit elsewhere.
pub open spec fn flag8_spec(on: bool, mask: u8) -> u8 {
    if on {
        mask
    } else {
        0
    }
}

/// `mask` where `on` holds, no bit elsewhere.
pub open spec fn flag16_spec(on: bool, mask: u16) -> u16 {
    if on {
        mask
    } else {
        0
    }
}

/// `mask` where `on` holds, no bit elsewhere.
pub open spec fn flag32_spec(on: bool, mask: u32) -> u32 {
    if on {
        mask
    } else {
        0
    }
}

/// `mask` where `on` holds, no bit elsewhere.
pub fn flag8(on: bool, mask: u8) -> (r: u8)
    ensures
        r == flag8_spec(on, mask),
{
    if on {
        mask
    } else {
        0
    }
}

/// `mask` where `on` holds, no bit elsewhere.
pub fn flag16(on: bool, mask: u16) -> (r: u16)
    ensures
        r == flag16_spec(on, mask),
{
    if on {
        mask
    } else {
        0
    }
}

/// `mask` where `on` holds, no bit elsewhere.
pub fn flag32(on: bool, mask: u32) -> (r: u32)
    ensures
        r == flag32_spec(on, mask),
{
    if on {
        mask
    } else {
        0
    }
}

} // verus!
