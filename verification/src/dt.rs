//! The guarded time between two reports.

use vstd::prelude::*;

use crate::scalar::Scalar;

verus! {

/// Pattern of `100.0`, the shortest interval in microseconds.
pub const DT_MIN_BITS: u64 = 0x4059_0000_0000_0000;

/// Pattern of `20000.0`, the longest interval in microseconds.
pub const DT_MAX_BITS: u64 = 0x40D3_8800_0000_0000;

/// A report interval in microseconds, always a number between 100 and 20000.
#[derive(Clone, Copy, Debug, PartialEq, Eq, Structural)]
pub struct Dt {
    us: Scalar,
}

impl Dt {
    #[verifier::type_invariant]
    spec fn guarded_window(self) -> bool {
        &&& self.us.ge_spec(Scalar { bits: DT_MIN_BITS })
        &&& (Scalar { bits: DT_MAX_BITS }).ge_spec(self.us)
    }

    /// The interval in microseconds.
    pub closed spec fn value(self) -> Scalar {
        self.us
    }

    /// A measured interval inside the guard window; what is not a number is the shortest interval.
    pub open spec fn guarded_spec(raw_us: Scalar) -> Scalar {
        if raw_us.is_nan() {
            Scalar { bits: DT_MIN_BITS }
        } else {
            raw_us.clamp_spec(Scalar { bits: DT_MIN_BITS }, Scalar { bits: DT_MAX_BITS })
        }
    }

    /// Clamps a measured interval into the guard window; what is not a number becomes the
    /// shortest interval.
    pub fn guarded(raw_us: Scalar) -> (r: Dt)
        ensures
            r.value() == Dt::guarded_spec(raw_us),
    {
        let lo: Scalar = Scalar { bits: DT_MIN_BITS };
        let hi: Scalar = Scalar { bits: DT_MAX_BITS };
        if !raw_us.ge(raw_us) {
            return Dt { us: lo };
        }
        Dt { us: raw_us.clamp(lo, hi) }
    }

    /// The interval in microseconds.
    pub fn us(self) -> (r: Scalar)
        ensures
            r == self.value(),
            r.ge_spec(Scalar { bits: DT_MIN_BITS }),
            (Scalar { bits: DT_MAX_BITS }).ge_spec(r),
    {
        proof {
            use_type_invariant(&self);
        }
        self.us
    }
}

/// An interval from 100 to 20000 microseconds is taken as it is, a shorter one as 100, a longer one
/// as 20000, and what is no number as 100.
pub proof fn intervals_are_held_in_the_window(raw: Scalar)
    ensures
        0x4059_0000_0000_0000 <= raw.bits <= 0x40D3_8800_0000_0000 ==> Dt::guarded_spec(raw) == raw,
        raw.bits < 0x4059_0000_0000_0000 || raw.bits > 0x7FF0_0000_0000_0000 ==> Dt::guarded_spec(
            raw,
        ).bits == 0x4059_0000_0000_0000,
        0x40D3_8800_0000_0000 < raw.bits <= 0x7FF0_0000_0000_0000 ==> Dt::guarded_spec(raw).bits
            == 0x40D3_8800_0000_0000,
{
}

} // verus!
