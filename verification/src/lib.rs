//! Controller-mapping core: input decoding, remapping, filters and configuration rules.

pub mod autoswitch;
pub mod axis;
pub mod config;
pub mod dt;
pub mod editor;
pub mod flags;
pub mod input;
pub mod ints;
pub mod map;
pub mod mouse_accum;
pub mod names;
pub mod output;
pub mod rc;
pub mod scalar;
pub mod stick;
pub mod trigger;

pub use axis::{clamp_axis, AxisRatio, RawStickFormat};
pub use dt::Dt;
pub use output::OutputFrame;
pub use rc::{RcConfig, RcCurve, RcFilter, RcMode, RcStickState};
pub use stick::StickSample;
