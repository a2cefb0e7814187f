//! The virtual-pad state that the mapping engine fills, and its lowering to wire formats.

use vstd::prelude::*;

use crate::flags::{flag16, flag16_spec, flag32, flag32_spec};
use crate::input::state::ControllerState;
use crate::output::OutputFrame;
use crate::scalar::Scalar;

verus! {

/// The buttons of a virtual pad of either make, one bit each.
#[derive(Clone, Copy, Debug, PartialEq, Eq, Structural)]
pub struct PadButtons(pub u32);

impl PadButtons {
    /// A (Cross).
    pub const A: u32 = 0x1;

    /// B (Circle).
    pub const B: u32 = 0x2;

    /// X (Square).
    pub const X: u32 = 0x4;

    /// Y (Triangle).
    pub const Y: u32 = 0x8;

    /// Left bumper.
    pub const LB: u32 = 0x10;

    /// Right bumper.
    pub const RB: u32 = 0x20;

    /// Back (Share).
    pub const BACK: u32 = 0x40;

    /// Start (Options).
    pub const START: u32 = 0x80;

    /// Left stick click.
    pub const LS: u32 = 0x100;

    /// Right stick click.
    pub const RS: u32 = 0x200;

    /// Guide (PS).
    pub const GUIDE: u32 = 0x400;

    /// D-pad up.
    pub const DPAD_UP: u32 = 0x800;

    /// D-pad down.
    pub const DPAD_DOWN: u32 = 0x1000;

    /// D-pad left.
    pub const DPAD_LEFT: u32 = 0x2000;

    /// D-pad right.
    pub const DPAD_RIGHT: u32 = 0x4000;

    /// Left trigger click; the Xbox pad has no such button.
    pub const L2_CLICK: u32 = 0x8000;

    /// Right trigger click; the Xbox pad has no such button.
    pub const R2_CLICK: u32 = 0x1_0000;

    /// Touchpad click; the Xbox pad has no such button.
    pub const TOUCHPAD: u32 = 0x2_0000;

    /// Whether any bit of `mask` is set.
    pub open spec fn has_spec(self, mask: u32) -> bool {
        self.0 & mask != 0
    }

    /// The set with every bit of `mask` set or cleared.
    pub open spec fn set_spec(self, mask: u32, on: bool) -> PadButtons {
        PadButtons(
            if on {
                self.0 | mask
            } else {
                self.0 & !mask
            },
        )
    }

    /// Whether any bit of `mask` is set.
    pub fn has(self, mask: u32) -> (r: bool)
        ensures
            r == self.has_spec(mask),
    {
        self.0 & mask != 0
    }

    /// Sets or clears every bit of `mask`.
    pub fn set(&mut self, mask: u32, on: bool)
        ensures
            *final(self) == old(self).set_spec(mask, on),
    {
        if on {
            self.0 = self.0 | mask;
        } else {
            self.0 = self.0 & !mask;
        }
    }
}

impl Default for PadButtons {
    fn default() -> (r: PadButtons)
        ensures
            r.0 == 0,
    {
        PadButtons(0)
    }
}

/// After `set`, a non-empty mask reads as it was set, and a mask that shares no bit with it reads
/// as before.
pub proof fn set_is_read_back(b: PadButtons, mask: u32, other: u32, on: bool)
    ensures
        mask != 0 ==> b.set_spec(mask, on).has_spec(mask) == on,
        mask & other == 0 ==> b.set_spec(mask, on).has_spec(other) == b.has_spec(other),
{
    let w = b.0;
    assert(mask != 0 ==> ((w | mask) & mask != 0) && ((w & !mask) & mask == 0)) by (bit_vector);
    assert(mask & other == 0 ==> (w | mask) & other == w & other && (w & !mask) & other == w
        & other) by (bit_vector);
}

/// A processed virtual-pad state: sticks in `[-1,1]` with up and right positive, triggers in
/// `[0,1]`.
#[derive(Clone, Copy, Debug, PartialEq, Eq, Structural)]
pub struct OutputState {
    pub lx: Scalar,
    pub ly: Scalar,
    pub rx: Scalar,
    pub ry: Scalar,
    pub lt: Scalar,
    pub rt: Scalar,
    pub buttons: PadButtons,
}

/// The mask of a button that is pressed or not.
#[verifier::opaque]
pub open spec fn press_mask(pressed: bool, bit: u32) -> u32 {
    flag32_spec(pressed, bit)
}

/// The mask of a button that is pressed or not.
fn mask_if(pressed: bool, bit: u32) -> (r: u32)
    ensures
        r == press_mask(pressed, bit),
{
    reveal(press_mask);
    flag32(pressed, bit)
}

/// The face and shoulder buttons of a button word.
#[verifier::opaque]
pub open spec fn face_word(
    cross: bool,
    circle: bool,
    square: bool,
    triangle: bool,
    l1: bool,
    r1: bool,
) -> u32 {
    press_mask(cross, PadButtons::A)
        | press_mask(circle, PadButtons::B)
        | press_mask(square, PadButtons::X)
        | press_mask(triangle, PadButtons::Y)
        | press_mask(l1, PadButtons::LB)
        | press_mask(r1, PadButtons::RB)
}

/// The face and shoulder buttons of a button word.
fn face_bits(
    cross: bool,
    circle: bool,
    square: bool,
    triangle: bool,
    l1: bool,
    r1: bool,
) -> (r: u32)
    ensures
        r == face_word(cross, circle, square, triangle, l1, r1),
{
    reveal(face_word);
    mask_if(cross, PadButtons::A)
        | mask_if(circle, PadButtons::B)
        | mask_if(square, PadButtons::X)
        | mask_if(triangle, PadButtons::Y)
        | mask_if(l1, PadButtons::LB)
        | mask_if(r1, PadButtons::RB)
}

/// The buttons in the middle of the pad and the stick clicks.
#[verifier::opaque]
pub open spec fn centre_word(
    share: bool,
    options: bool,
    l3: bool,
    r3: bool,
    ps: bool,
    touch: bool,
) -> u32 {
    press_mask(share, PadButtons::BACK)
        | press_mask(options, PadButtons::START)
        | press_mask(l3, PadButtons::LS)
        | press_mask(r3, PadButtons::RS)
        | press_mask(ps, PadButtons::GUIDE)
        | press_mask(touch, PadButtons::TOUCHPAD)
}

/// The buttons in the middle of the pad and the stick clicks.
fn centre_bits(
    share: bool,
    options: bool,
    l3: bool,
    r3: bool,
    ps: bool,
    touch: bool,
) -> (r: u32)
    ensures
        r == centre_word(share, options, l3, r3, ps, touch),
{
    reveal(centre_word);
    mask_if(share, PadButtons::BACK)
        | mask_if(options, PadButtons::START)
        | mask_if(l3, PadButtons::LS)
        | mask_if(r3, PadButtons::RS)
        | mask_if(ps, PadButtons::GUIDE)
        | mask_if(touch, PadButtons::TOUCHPAD)
}

/// The directions and the trigger clicks.
#[verifier::opaque]
pub open spec fn rim_word(
    dpad_up: bool,
    dpad_down: bool,
    dpad_left: bool,
    dpad_right: bool,
    l2_click: bool,
    r2_click: bool,
) -> u32 {
    press_mask(dpad_up, PadButtons::DPAD_UP)
        | press_mask(dpad_down, PadButtons::DPAD_DOWN)
        | press_mask(dpad_left, PadButtons::DPAD_LEFT)
        | press_mask(dpad_right, PadButtons::DPAD_RIGHT)
        | press_mask(l2_click, PadButtons::L2_CLICK)
        | press_mask(r2_click, PadButtons::R2_CLICK)
}

/// The directions and the trigger clicks.
fn rim_bits(
    dpad_up: bool,
    dpad_down: bool,
    dpad_left: bool,
    dpad_right: bool,
    l2_click: bool,
    r2_click: bool,
) -> (r: u32)
    ensures
        r == rim_word(dpad_up, dpad_down, dpad_left, dpad_right, l2_click, r2_click),
{
    reveal(rim_word);
    mask_if(dpad_up, PadButtons::DPAD_UP)
        | mask_if(dpad_down, PadButtons::DPAD_DOWN)
        | mask_if(dpad_left, PadButtons::DPAD_LEFT)
        | mask_if(dpad_right, PadButtons::DPAD_RIGHT)
        | mask_if(l2_click, PadButtons::L2_CLICK)
        | mask_if(r2_click, PadButtons::R2_CLICK)
}

/// A button word.
#[verifier::opaque]
pub open spec fn pad_word(
    cross: bool,
    circle: bool,
    square: bool,
    triangle: bool,
    l1: bool,
    r1: bool,
    share: bool,
    options: bool,
    l3: bool,
    r3: bool,
    ps: bool,
    dpad_up: bool,
    dpad_down: bool,
    dpad_left: bool,
    dpad_right: bool,
    l2_click: bool,
    r2_click: bool,
    touch: bool,
) -> u32 {
    face_word(cross, circle, square, triangle, l1, r1) | centre_word(
        share,
        options,
        l3,
        r3,
        ps,
        touch,
    ) | rim_word(dpad_up, dpad_down, dpad_left, dpad_right, l2_click, r2_click)
}

/// The buttons up to the menu buttons, put together in the order of the control table.
#[verifier::opaque]
pub open spec fn table_head(
    l1: bool,
    l3: bool,
    r1: bool,
    r3: bool,
    square: bool,
    triangle: bool,
    circle: bool,
    cross: bool,
    dpad_up: bool,
    dpad_right: bool,
    dpad_down: bool,
    dpad_left: bool,
    ps: bool,
    share: bool,
    options: bool,
) -> u32 {
    0u32
        | press_mask(l1, PadButtons::LB)
        | press_mask(l3, PadButtons::LS)
        | press_mask(r1, PadButtons::RB)
        | press_mask(r3, PadButtons::RS)
        | press_mask(square, PadButtons::X)
        | press_mask(triangle, PadButtons::Y)
        | press_mask(circle, PadButtons::B)
        | press_mask(cross, PadButtons::A)
        | press_mask(dpad_up, PadButtons::DPAD_UP)
        | press_mask(dpad_right, PadButtons::DPAD_RIGHT)
        | press_mask(dpad_down, PadButtons::DPAD_DOWN)
        | press_mask(dpad_left, PadButtons::DPAD_LEFT)
        | press_mask(ps, PadButtons::GUIDE)
        | press_mask(share, PadButtons::BACK)
        | press_mask(options, PadButtons::START)
}

/// A button word, put together in the order of the control table.
#[verifier::opaque]
pub open spec fn table_word(
    l1: bool,
    l3: bool,
    r1: bool,
    r3: bool,
    square: bool,
    triangle: bool,
    circle: bool,
    cross: bool,
    dpad_up: bool,
    dpad_right: bool,
    dpad_down: bool,
    dpad_left: bool,
    ps: bool,
    share: bool,
    options: bool,
    l2_click: bool,
    r2_click: bool,
    touch: bool,
) -> u32 {
    table_head(
        l1,
        l3,
        r1,
        r3,
        square,
        triangle,
        circle,
        cross,
        dpad_up,
        dpad_right,
        dpad_down,
        dpad_left,
        ps,
        share,
        options,
    )
        | press_mask(l2_click, PadButtons::L2_CLICK)
        | press_mask(r2_click, PadButtons::R2_CLICK)
        | press_mask(touch, PadButtons::TOUCHPAD)
}

/// The order in which buttons are gathered does not matter.
pub proof fn gathering_order(
    cross: bool,
    circle: bool,
    square: bool,
    triangle: bool,
    l1: bool,
    r1: bool,
    share: bool,
    options: bool,
    l3: bool,
    r3: bool,
    ps: bool,
    dpad_up: bool,
    dpad_down: bool,
    dpad_left: bool,
    dpad_right: bool,
    l2_click: bool,
    r2_click: bool,
    touch: bool,
)
    by (bit_vector)
    ensures
        table_word(
            l1,
            l3,
            r1,
            r3,
            square,
            triangle,
            circle,
            cross,
            dpad_up,
            dpad_right,
            dpad_down,
            dpad_left,
            ps,
            share,
            options,
            l2_click,
            r2_click,
            touch,
        ) == pad_word(
            cross,
            circle,
            square,
            triangle,
            l1,
            r1,
            share,
            options,
            l3,
            r3,
            ps,
            dpad_up,
            dpad_down,
            dpad_left,
            dpad_right,
            l2_click,
            r2_click,
            touch,
        ),
{
}

/// The button word of a controller whose buttons go to the pad unchanged.
pub open spec fn identity_buttons(s: ControllerState) -> u32 {
    pad_word(
        s.cross,
        s.circle,
        s.square,
        s.triangle,
        s.l1,
        s.r1,
        s.share,
        s.options,
        s.l3,
        s.r3,
        s.ps,
        s.dpad_up,
        s.dpad_down,
        s.dpad_left,
        s.dpad_right,
        s.l2_raw == 255,
        s.r2_raw == 255,
        s.touch_button,
    )
}

impl OutputState {
    /// The pad state of a controller that is passed through unchanged.
    pub open spec fn passthrough_spec(s: ControllerState) -> OutputState {
        OutputState {
            lx: s.lx,
            ly: s.ly,
            rx: s.rx,
            ry: s.ry,
            lt: s.l2,
            rt: s.r2,
            buttons: PadButtons(identity_buttons(s)),
        }
    }

    /// The pad at rest.
    pub open spec fn rest_spec() -> OutputState {
        let z = Scalar { bits: 0 };
        OutputState { lx: z, ly: z, rx: z, ry: z, lt: z, rt: z, buttons: PadButtons(0) }
    }

    /// The state as an Xbox frame: the same sticks and triggers with the buttons packed.
    pub open spec fn frame_spec(self) -> OutputFrame {
        OutputFrame {
            lx: self.lx,
            ly: self.ly,
            rx: self.rx,
            ry: self.ry,
            lt: self.lt,
            rt: self.rt,
            buttons: xinput_word(self.buttons.0),
        }
    }

    /// The pad state of a controller that is passed through unchanged.
    pub fn passthrough(s: &ControllerState) -> (r: OutputState)
        ensures
            r == OutputState::passthrough_spec(*s),
    {
        proof {
            reveal(pad_word);
        }
        OutputState {
            lx: s.lx,
            ly: s.ly,
            rx: s.rx,
            ry: s.ry,
            lt: s.l2,
            rt: s.r2,
            buttons: PadButtons(
                face_bits(s.cross, s.circle, s.square, s.triangle, s.l1, s.r1) | centre_bits(
                    s.share,
                    s.options,
                    s.l3,
                    s.r3,
                    s.ps,
                    s.touch_button,
                ) | rim_bits(
                    s.dpad_up,
                    s.dpad_down,
                    s.dpad_left,
                    s.dpad_right,
                    s.l2_raw == 255,
                    s.r2_raw == 255,
                ),
            ),
        }
    }

    /// The state as an Xbox frame: the same sticks and triggers with the buttons packed.
    pub fn to_output_frame(&self) -> (r: OutputFrame)
        ensures
            r == self.frame_spec(),
    {
        OutputFrame {
            lx: self.lx,
            ly: self.ly,
            rx: self.rx,
            ry: self.ry,
            lt: self.lt,
            rt: self.rt,
            buttons: pack_xinput(self.buttons),
        }
    }
}

impl Default for OutputState {
    fn default() -> (r: OutputState)
        ensures
            r == OutputState::rest_spec(),
    {
        let z: Scalar = Scalar { bits: 0 };
        OutputState { lx: z, ly: z, rx: z, ry: z, lt: z, rt: z, buttons: PadButtons(0) }
    }
}

pub const XI_DPAD_UP: u16 = 0x0001;

pub const XI_DPAD_DOWN: u16 = 0x0002;

pub const XI_DPAD_LEFT: u16 = 0x0004;

pub const XI_DPAD_RIGHT: u16 = 0x0008;

pub const XI_START: u16 = 0x0010;

pub const XI_BACK: u16 = 0x0020;

pub const XI_LTHUMB: u16 = 0x0040;

pub const XI_RTHUMB: u16 = 0x0080;

pub const XI_LSHOULDER: u16 = 0x0100;

pub const XI_RSHOULDER: u16 = 0x0200;

pub const XI_GUIDE: u16 = 0x0400;

pub const XI_A: u16 = 0x1000;

pub const XI_B: u16 = 0x2000;

pub const XI_X: u16 = 0x4000;

pub const XI_Y: u16 = 0x8000;

/// The Xbox button word of a pad button word: each button at its Xbox bit. Trigger and touchpad
/// clicks have no Xbox bit and fall away.
pub open spec fn xinput_word(w: u32) -> u16 {
    flag16_spec(w & PadButtons::A != 0, XI_A) | flag16_spec(w & PadButtons::B != 0, XI_B)
        | flag16_spec(w & PadButtons::X != 0, XI_X) | flag16_spec(w & PadButtons::Y != 0, XI_Y)
        | flag16_spec(w & PadButtons::LB != 0, XI_LSHOULDER) | flag16_spec(
        w & PadButtons::RB != 0,
        XI_RSHOULDER,
    ) | flag16_spec(w & PadButtons::BACK != 0, XI_BACK) | flag16_spec(
        w & PadButtons::START != 0,
        XI_START,
    ) | flag16_spec(w & PadButtons::LS != 0, XI_LTHUMB) | flag16_spec(
        w & PadButtons::RS != 0,
        XI_RTHUMB,
    ) | flag16_spec(w & PadButtons::GUIDE != 0, XI_GUIDE) | flag16_spec(
        w & PadButtons::DPAD_UP != 0,
        XI_DPAD_UP,
    ) | flag16_spec(w & PadButtons::DPAD_DOWN != 0, XI_DPAD_DOWN) | flag16_spec(
        w & PadButtons::DPAD_LEFT != 0,
        XI_DPAD_LEFT,
    ) | flag16_spec(w & PadButtons::DPAD_RIGHT != 0, XI_DPAD_RIGHT)
}

/// Packs the buttons into the Xbox button word.
pub fn pack_xinput(b: PadButtons) -> (r: u16)
    ensures
        r == xinput_word(b.0),
{
    flag16(b.has(PadButtons::A), XI_A) | flag16(b.has(PadButtons::B), XI_B) | flag16(
        b.has(PadButtons::X),
        XI_X,
    ) | flag16(b.has(PadButtons::Y), XI_Y) | flag16(b.has(PadButtons::LB), XI_LSHOULDER) | flag16(
        b.has(PadButtons::RB),
        XI_RSHOULDER,
    ) | flag16(b.has(PadButtons::BACK), XI_BACK) | flag16(b.has(PadButtons::START), XI_START)
        | flag16(b.has(PadButtons::LS), XI_LTHUMB) | flag16(b.has(PadButtons::RS), XI_RTHUMB)
        | flag16(b.has(PadButtons::GUIDE), XI_GUIDE) | flag16(
        b.has(PadButtons::DPAD_UP),
        XI_DPAD_UP,
    ) | flag16(b.has(PadButtons::DPAD_DOWN), XI_DPAD_DOWN) | flag16(
        b.has(PadButtons::DPAD_LEFT),
        XI_DPAD_LEFT,
    ) | flag16(b.has(PadButtons::DPAD_RIGHT), XI_DPAD_RIGHT)
}

/// Trigger and touchpad clicks never reach the Xbox word.
pub proof fn xinput_drops_ds4_only(w: u32)
    ensures
        xinput_word(w | PadButtons::L2_CLICK | PadButtons::R2_CLICK | PadButtons::TOUCHPAD)
            == xinput_word(w),
{
    assert(xinput_word(w | 0x8000 | 0x1_0000 | 0x2_0000) == xinput_word(w)) by (bit_vector);
}

/// The Xbox word shows exactly the pad's buttons: every Xbox bit mirrors its button and the one
/// bit without a button stays clear.
pub proof fn xinput_mirrors_buttons(w: u32)
    ensures
        (xinput_word(w) & XI_A != 0) == (w & PadButtons::A != 0),
        (xinput_word(w) & XI_B != 0) == (w & PadButtons::B != 0),
        (xinput_word(w) & XI_X != 0) == (w & PadButtons::X != 0),
        (xinput_word(w) & XI_Y != 0) == (w & PadButtons::Y != 0),
        (xinput_word(w) & XI_LSHOULDER != 0) == (w & PadButtons::LB != 0),
        (xinput_word(w) & XI_RSHOULDER != 0) == (w & PadButtons::RB != 0),
        (xinput_word(w) & XI_BACK != 0) == (w & PadButtons::BACK != 0),
        (xinput_word(w) & XI_START != 0) == (w & PadButtons::START != 0),
        (xinput_word(w) & XI_LTHUMB != 0) == (w & PadButtons::LS != 0),
        (xinput_word(w) & XI_RTHUMB != 0) == (w & PadButtons::RS != 0),
        (xinput_word(w) & XI_GUIDE != 0) == (w & PadButtons::GUIDE != 0),
        (xinput_word(w) & XI_DPAD_UP != 0) == (w & PadButtons::DPAD_UP != 0),
        (xinput_word(w) & XI_DPAD_DOWN != 0) == (w & PadButtons::DPAD_DOWN != 0),
        (xinput_word(w) & XI_DPAD_LEFT != 0) == (w & PadButtons::DPAD_LEFT != 0),
        (xinput_word(w) & XI_DPAD_RIGHT != 0) == (w & PadButtons::DPAD_RIGHT != 0),
        xinput_word(w) & 0x0800 == 0,
{
    assert({
        &&& (xinput_word(w) & XI_A != 0) == (w & PadButtons::A != 0)
        &&& (xinput_word(w) & XI_B != 0) == (w & PadButtons::B != 0)
        &&& (xinput_word(w) & XI_X != 0) == (w & PadButtons::X != 0)
        &&& (xinput_word(w) & XI_Y != 0) == (w & PadButtons::Y != 0)
        &&& (xinput_word(w) & XI_LSHOULDER != 0) == (w & PadButtons::LB != 0)
        &&& (xinput_word(w) & XI_RSHOULDER != 0) == (w & PadButtons::RB != 0)
        &&& (xinput_word(w) & XI_BACK != 0) == (w & PadButtons::BACK != 0)
        &&& (xinput_word(w) & XI_START != 0) == (w & PadButtons::START != 0)
        &&& (xinput_word(w) & XI_LTHUMB != 0) == (w & PadButtons::LS != 0)
        &&& (xinput_word(w) & XI_RTHUMB != 0) == (w & PadButtons::RS != 0)
        &&& (xinput_word(w) & XI_GUIDE != 0) == (w & PadButtons::GUIDE != 0)
        &&& (xinput_word(w) & XI_DPAD_UP != 0) == (w & PadButtons::DPAD_UP != 0)
        &&& (xinput_word(w) & XI_DPAD_DOWN != 0) == (w & PadButtons::DPAD_DOWN != 0)
        &&& (xinput_word(w) & XI_DPAD_LEFT != 0) == (w & PadButtons::DPAD_LEFT != 0)
        &&& (xinput_word(w) & XI_DPAD_RIGHT != 0) == (w & PadButtons::DPAD_RIGHT != 0)
        &&& xinput_word(w) & 0x0800 == 0
    }) by (bit_vector);
}

/// The d-pad as one of eight directions.
#[derive(Clone, Copy, Debug, PartialEq, Eq, Structural)]
pub enum Ds4Dpad {
    North,
    NorthEast,
    East,
    SouthEast,
    South,
    SouthWest,
    West,
    NorthWest,
    /// No direction.
    Neutral,
}

impl Ds4Dpad {
    /// The hat value: 0 to 7 clockwise from north, 8 centred.
    pub open spec fn hat(self) -> u8 {
        match self {
            Ds4Dpad::North => 0,
            Ds4Dpad::NorthEast => 1,
            Ds4Dpad::East => 2,
            Ds4Dpad::SouthEast => 3,
            Ds4Dpad::South => 4,
            Ds4Dpad::SouthWest => 5,
            Ds4Dpad::West => 6,
            Ds4Dpad::NorthWest => 7,
            Ds4Dpad::Neutral => 8,
        }
    }

    /// The hat value: 0 to 7 clockwise from north, 8 centred.
    pub fn as_u8(self) -> (r: u8)
        ensures
            r == self.hat(),
    {
        match self {
            Ds4Dpad::North => 0,
            Ds4Dpad::NorthEast => 1,
            Ds4Dpad::East => 2,
            Ds4Dpad::SouthEast => 3,
            Ds4Dpad::South => 4,
            Ds4Dpad::SouthWest => 5,
            Ds4Dpad::West => 6,
            Ds4Dpad::NorthWest => 7,
            Ds4Dpad::Neutral => 8,
        }
    }
}

impl Default for Ds4Dpad {
    fn default() -> (r: Ds4Dpad)
        ensures
            r == Ds4Dpad::Neutral,
    {
        Ds4Dpad::Neutral
    }
}

/// The eight-way direction of four flags. A diagonal wins over a single direction; of the
/// diagonals the northern ones win, then the eastern ones; of single directions north, east,
/// south, west, in that order.
pub open spec fn dpad_spec(up: bool, down: bool, left: bool, right: bool) -> Ds4Dpad {
    if (up || down) && (left || right) {
        if up {
            if right {
                Ds4Dpad::NorthEast
            } else {
                Ds4Dpad::NorthWest
            }
        } else if right {
            Ds4Dpad::SouthEast
        } else {
            Ds4Dpad::SouthWest
        }
    } else if up {
        Ds4Dpad::North
    } else if right {
        Ds4Dpad::East
    } else if down {
        Ds4Dpad::South
    } else if left {
        Ds4Dpad::West
    } else {
        Ds4Dpad::Neutral
    }
}

/// The eight-way direction of four flags.
pub fn dpad_8way(up: bool, down: bool, left: bool, right: bool) -> (r: Ds4Dpad)
    ensures
        r == dpad_spec(up, down, left, right),
{
    if up && right {
        Ds4Dpad::NorthEast
    } else if up && left {
        Ds4Dpad::NorthWest
    } else if down && right {
        Ds4Dpad::SouthEast
    } else if down && left {
        Ds4Dpad::SouthWest
    } else if up {
        Ds4Dpad::North
    } else if right {
        Ds4Dpad::East
    } else if down {
        Ds4Dpad::South
    } else if left {
        Ds4Dpad::West
    } else {
        Ds4Dpad::Neutral
    }
}

/// The d-pad leaves as it came in: lowering the four flags gives the hat value that decodes to
/// them, with up hiding down and right hiding left.
pub proof fn dpad_lowers_to_its_hat(up: bool, down: bool, left: bool, right: bool)
    ensures
        crate::input::state::is_hat(dpad_spec(up, down, left, right).hat(), up, right, down, left),
{
}

/// Which virtual pad a profile drives.
#[derive(Clone, Copy, Debug, PartialEq, Eq, Structural)]
pub enum PadTarget {
    /// Xbox 360 pad.
    X360,
    /// DualShock 4 pad.
    Ds4,
}

impl Default for PadTarget {
    fn default() -> (r: PadTarget)
        ensures
            r == PadTarget::X360,
    {
        PadTarget::X360
    }
}

/// Whether a button word shows these presses, each at its own place, and nothing besides.
pub open spec fn word_shows(
    w: u32,
    cross: bool,
    circle: bool,
    square: bool,
    triangle: bool,
    l1: bool,
    r1: bool,
    share: bool,
    options: bool,
    l3: bool,
    r3: bool,
    ps: bool,
    dpad_up: bool,
    dpad_down: bool,
    dpad_left: bool,
    dpad_right: bool,
    l2_click: bool,
    r2_click: bool,
    touch: bool,
) -> bool {
    &&& (w & 0x1 != 0) == cross
    &&& (w & 0x2 != 0) == circle
    &&& (w & 0x4 != 0) == square
    &&& (w & 0x8 != 0) == triangle
    &&& (w & 0x10 != 0) == l1
    &&& (w & 0x20 != 0) == r1
    &&& (w & 0x40 != 0) == share
    &&& (w & 0x80 != 0) == options
    &&& (w & 0x100 != 0) == l3
    &&& (w & 0x200 != 0) == r3
    &&& (w & 0x400 != 0) == ps
    &&& (w & 0x800 != 0) == dpad_up
    &&& (w & 0x1000 != 0) == dpad_down
    &&& (w & 0x2000 != 0) == dpad_left
    &&& (w & 0x4000 != 0) == dpad_right
    &&& (w & 0x8000 != 0) == l2_click
    &&& (w & 0x1_0000 != 0) == r2_click
    &&& (w & 0x2_0000 != 0) == touch
    &&& w & 0xFFFC_0000 == 0
}

/// A controller that is passed through shows every button at its own place on the pad, with a
/// trigger's click at its last step, and nothing besides; its sticks and triggers are unchanged.
pub proof fn passing_through_shows_each_button(s: ControllerState)
    ensures
        ({
            let r = OutputState::passthrough_spec(s);
            &&& r.lx == s.lx && r.ly == s.ly && r.rx == s.rx && r.ry == s.ry
            &&& r.lt == s.l2 && r.rt == s.r2
            &&& word_shows(
                r.buttons.0,
                s.cross,
                s.circle,
                s.square,
                s.triangle,
                s.l1,
                s.r1,
                s.share,
                s.options,
                s.l3,
                s.r3,
                s.ps,
                s.dpad_up,
                s.dpad_down,
                s.dpad_left,
                s.dpad_right,
                s.l2_raw == 255,
                s.r2_raw == 255,
                s.touch_button,
            )
        }),
{
    buttons_of_a_word(
        s.cross,
        s.circle,
        s.square,
        s.triangle,
        s.l1,
        s.r1,
        s.share,
        s.options,
        s.l3,
        s.r3,
        s.ps,
        s.dpad_up,
        s.dpad_down,
        s.dpad_left,
        s.dpad_right,
        s.l2_raw == 255,
        s.r2_raw == 255,
        s.touch_button,
    );
}

/// The bits of a button word.
proof fn buttons_of_a_word(
    cross: bool,
    circle: bool,
    square: bool,
    triangle: bool,
    l1: bool,
    r1: bool,
    share: bool,
    options: bool,
    l3: bool,
    r3: bool,
    ps: bool,
    dpad_up: bool,
    dpad_down: bool,
    dpad_left: bool,
    dpad_right: bool,
    l2_click: bool,
    r2_click: bool,
    touch: bool,
)
    by (bit_vector)
    ensures
        word_shows(
            pad_word(
                cross,
                circle,
                square,
                triangle,
                l1,
                r1,
                share,
                options,
                l3,
                r3,
                ps,
                dpad_up,
                dpad_down,
                dpad_left,
                dpad_right,
                l2_click,
                r2_click,
                touch,
            ),
            cross,
            circle,
            square,
            triangle,
            l1,
            r1,
            share,
            options,
            l3,
            r3,
            ps,
            dpad_up,
            dpad_down,
            dpad_left,
            dpad_right,
            l2_click,
            r2_click,
            touch,
        ),
{
}

/// An Xbox frame has the state's sticks and triggers, and each of its buttons at the bit that the
/// Xbox pad has for it, counted from the pad's own bit for the same button.
pub proof fn frames_show_each_button(s: OutputState)
    ensures
        ({
            let f = s.frame_spec();
            let (w, x) = (s.buttons.0, f.buttons);
            &&& f.lx == s.lx && f.ly == s.ly && f.rx == s.rx && f.ry == s.ry
            &&& f.lt == s.lt && f.rt == s.rt
            &&& (x & 0x1000 != 0) == (w & 0x1 != 0)
            &&& (x & 0x2000 != 0) == (w & 0x2 != 0)
            &&& (x & 0x4000 != 0) == (w & 0x4 != 0)
            &&& (x & 0x8000 != 0) == (w & 0x8 != 0)
            &&& (x & 0x100 != 0) == (w & 0x10 != 0)
            &&& (x & 0x200 != 0) == (w & 0x20 != 0)
            &&& (x & 0x20 != 0) == (w & 0x40 != 0)
            &&& (x & 0x10 != 0) == (w & 0x80 != 0)
            &&& (x & 0x40 != 0) == (w & 0x100 != 0)
            &&& (x & 0x80 != 0) == (w & 0x200 != 0)
            &&& (x & 0x400 != 0) == (w & 0x400 != 0)
            &&& (x & 0x1 != 0) == (w & 0x800 != 0)
            &&& (x & 0x2 != 0) == (w & 0x1000 != 0)
            &&& (x & 0x4 != 0) == (w & 0x2000 != 0)
            &&& (x & 0x8 != 0) == (w & 0x4000 != 0)
            &&& x & 0x800 == 0
        }),
{
    xinput_mirrors_buttons(s.buttons.0);
}

/// The hat counts clockwise from north: the four single directions are the even values, each
/// diagonal lies between its neighbours, and no direction is 8.
pub proof fn hat_counts_clockwise(d: Ds4Dpad)
    ensures
        Ds4Dpad::North.hat() == 0 && Ds4Dpad::East.hat() == 2,
        Ds4Dpad::South.hat() == 4 && Ds4Dpad::West.hat() == 6,
        2 * Ds4Dpad::NorthEast.hat() == Ds4Dpad::North.hat() + Ds4Dpad::East.hat(),
        2 * Ds4Dpad::SouthEast.hat() == Ds4Dpad::East.hat() + Ds4Dpad::South.hat(),
        2 * Ds4Dpad::SouthWest.hat() == Ds4Dpad::South.hat() + Ds4Dpad::West.hat(),
        2 * Ds4Dpad::NorthWest.hat() == Ds4Dpad::West.hat() + 8,
        d is Neutral <==> d.hat() == 8,
{
}

/// Turning the four directions over turns the d-pad over, wherever no two opposite directions are
/// pressed at once; where they are, up hides down and right hides left.
pub proof fn directions_lower_to_the_dpad(up: bool, down: bool, left: bool, right: bool)
    ensures
        !(up && down) && !(left && right) && dpad_spec(up, down, left, right) !is Neutral ==> ({
            let a = dpad_spec(up, down, left, right).hat();
            let b = dpad_spec(down, up, right, left).hat();
            a - b == 4 || b - a == 4
        }),
        up ==> dpad_spec(up, down, left, right) == dpad_spec(up, false, left, right),
        right ==> dpad_spec(up, down, left, right) == dpad_spec(up, down, false, right),
        dpad_spec(true, false, false, false) is North,
        dpad_spec(false, false, false, true) is East,
        dpad_spec(true, false, false, true) is NorthEast,
        dpad_spec(true, false, true, false) is NorthWest,
        dpad_spec(up, down, left, right) is Neutral <==> !up && !down && !left && !right,
{
}

/// A pad at rest has its sticks centred, its triggers released and no button pressed.
pub proof fn resting_pads_show_nothing(mask: u32)
    ensures
        ({
            let r = OutputState::rest_spec();
            &&& r.lx.bits == 0 && r.ly.bits == 0 && r.rx.bits == 0 && r.ry.bits == 0
            &&& r.lt.bits == 0 && r.rt.bits == 0
            &&& !r.buttons.has_spec(mask)
        }),
{
    assert(0u32 & mask == 0) by (bit_vector);
}

} // verus!
