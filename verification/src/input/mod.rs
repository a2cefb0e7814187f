//! Device-agnostic input: control names, report decoding and time-base folding.

use vstd::prelude::*;

use crate::scalar::Scalar;

pub mod control;
pub mod ds_report;
pub mod dt_clock;
pub mod normalize;
pub mod seq;
pub mod state;

pub use control::{Control, ControlKind, Thresholds};
pub use dt_clock::SensorClock;
pub use seq::SeqTracker;
pub use state::{ControllerState, Motion, TouchContact};

verus! {

/// One stick in canonical units: `[-1,1]` on both axes, up and right positive.
#[derive(Clone, Copy, Debug, PartialEq, Eq, Structural)]
pub struct StickPair {
    pub x: Scalar,
    pub y: Scalar,
}

/// A packed button word whose layout is the device's own.
#[derive(Clone, Copy, Debug, PartialEq, Eq, Structural)]
pub struct Buttons(pub u32);

/// What is known of a report besides its controls.
#[derive(Clone, Copy, Debug, PartialEq, Eq, Structural)]
pub struct ReportMeta {
    /// Report counter.
    pub seq: u8,
    /// Reports skipped before this one.
    pub dropped: u16,
    /// Whether the counter stood still.
    pub is_duplicate: bool,
    /// Guarded time since the previous report in microseconds, zero on the first one.
    pub dt_us: Scalar,
    /// Host time at which the report was read, in nanoseconds.
    pub host_qpc_ns: u64,
}

impl Default for ReportMeta {
    fn default() -> (r: ReportMeta)
        ensures
            r.seq == 0 && r.dropped == 0 && !r.is_duplicate && r.dt_us.bits == 0 && r.host_qpc_ns
                == 0,
    {
        ReportMeta {
            seq: 0,
            dropped: 0,
            is_duplicate: false,
            dt_us: Scalar { bits: 0 },
            host_qpc_ns: 0,
        }
    }
}

/// A report reduced to sticks, triggers and the packed button word.
#[derive(Clone, Copy, Debug, PartialEq, Eq, Structural)]
pub struct InputSample {
    pub left: StickPair,
    pub right: StickPair,
    pub l2: Scalar,
    pub r2: Scalar,
    pub buttons: Buttons,
    pub seq: u8,
    pub dropped: u16,
    pub is_duplicate: bool,
    pub dt_us: Scalar,
    pub host_qpc_ns: u64,
}

/// Identity and capabilities of an input device.
#[derive(Clone, Copy, Debug, PartialEq, Eq)]
pub struct SourceMeta {
    pub vid: u16,
    pub pid: u16,
    pub name: &'static str,
    pub stick_bits: u8,
    /// Whether the device sends the extended report with function buttons and paddles.
    pub is_edge: bool,
}

} // verus!
