//! Stick settings, resident state, and the decisions of the stick chain.

use vstd::prelude::*;

use crate::scalar::Scalar;

pub mod pipeline;
pub mod settings;
pub mod stages;

pub use settings::{
    AntiSnapback, AxisDeadZone, DeadZoneType, FlickStick, OutputCurve, RotationSettings,
    SnapbackRing, SquareStick, StickDeadZone, StickSettings, StickState, SNAP_CAP,
};

verus! {

/// One stick in canonical units.
#[derive(Clone, Copy, Debug, PartialEq, Eq, Structural)]
pub struct StickSample {
    pub x: Scalar,
    pub y: Scalar,
}

impl StickSample {
    /// The stick at `(x, y)`.
    pub fn new(x: Scalar, y: Scalar) -> (r: StickSample)
        ensures
            r == (StickSample { x, y }),
    {
        StickSample { x, y }
    }

    /// The stick at rest.
    pub fn neutral() -> (r: StickSample)
        ensures
            r.x.bits == 0,
            r.y.bits == 0,
    {
        StickSample { x: Scalar { bits: 0 }, y: Scalar { bits: 0 } }
    }
}

} // verus!
