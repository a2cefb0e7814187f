//! What leaves the mapping engine: virtual-pad state and keyboard/mouse events.

use vstd::prelude::*;

use crate::scalar::Scalar;

pub mod kbm;
pub mod state;

pub use kbm::{KbmBatch, KbmEvent, KeyKind, MouseButton, KBM_BATCH_CAP};
pub use state::{dpad_8way, pack_xinput, Ds4Dpad, OutputState, PadButtons, PadTarget};

verus! {

/// A processed frame for an Xbox pad, before its single rounding to integers.
#[derive(Clone, Copy, Debug, PartialEq, Eq, Structural)]
pub struct OutputFrame {
    pub lx: Scalar,
    pub ly: Scalar,
    pub rx: Scalar,
    pub ry: Scalar,
    pub lt: Scalar,
    pub rt: Scalar,
    /// Xbox button word.
    pub buttons: u16,
}

impl Default for OutputFrame {
    fn default() -> (r: OutputFrame)
        ensures
            r.lx.bits == 0 && r.ly.bits == 0 && r.rx.bits == 0 && r.ry.bits == 0,
            r.lt.bits == 0 && r.rt.bits == 0 && r.buttons == 0,
    {
        let z: Scalar = Scalar { bits: 0 };
        OutputFrame { lx: z, ly: z, rx: z, ry: z, lt: z, rt: z, buttons: 0 }
    }
}

} // verus!
