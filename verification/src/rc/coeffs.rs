//! Filter coefficients derived from the filter period, in truncating integer arithmetic.

use vstd::prelude::*;

use crate::ints::{clamp_i32, clamp_int};

verus! {

/// Shortest filter period, in microseconds.
pub const MIN_PERIOD_US: i32 = 1000;

/// Longest filter period, in microseconds.
pub const MAX_PERIOD_US: i32 = 8000;

/// Smallest filter strength.
pub const MIN_PARAM: i32 = -500;

/// Largest filter strength.
pub const MAX_PARAM: i32 = 500;

/// Smallest stick speed.
pub const MIN_SPEED: i32 = 0;

/// Largest stick speed.
pub const MAX_SPEED: i32 = 128;

/// The coefficients of one period.
#[derive(Clone, Copy, Debug, PartialEq, Eq, Structural)]
pub struct PeriodCoeffs {
    /// The period, held in its range.
    pub period_us: i32,
    /// The period in whole milliseconds, at least one.
    pub sample_ms: i32,
    /// Weight of the positive low-pass.
    pub base_value: i32,
    /// Blend weight of the negative branch.
    pub lead_base: i32,
}

impl PeriodCoeffs {
    /// The coefficients of the period nearest to `period_us` in its range.
    pub open spec fn of(period_us: int) -> PeriodCoeffs {
        let p = clamp_int(period_us, MIN_PERIOD_US as int, MAX_PERIOD_US as int);
        PeriodCoeffs {
            period_us: p as i32,
            sample_ms: (p / 1000) as i32,
            base_value: (100int / (p / 1000)) as i32,
            lead_base: (200_000int / p) as i32,
        }
    }

    /// Computes the coefficients of a period.
    pub fn new(period_us: i32) -> (r: PeriodCoeffs)
        ensures
            r == PeriodCoeffs::of(period_us as int),
            1 <= r.sample_ms <= 8,
            12 <= r.base_value <= 100,
            25 <= r.lead_base <= 200,
    {
        let p: i32 = clamp_i32(period_us, MIN_PERIOD_US, MAX_PERIOD_US);
        let ms: i32 = p / 1000;
        proof {
            coefficient_ranges(p as int);
        }
        let sample_ms: i32 = if ms < 1 {
            1
        } else {
            ms
        };
        PeriodCoeffs {
            period_us: p,
            sample_ms,
            base_value: 100 / sample_ms,
            lead_base: 200_000 / p,
        }
    }
}

/// The coefficients follow the period, held between 1 and 8 ms: its whole milliseconds, and the
/// whole parts of 100 over them and of 200 000 over the period in microseconds.
pub proof fn coefficients_follow_the_period(period_us: int)
    ensures
        ({
            let c = PeriodCoeffs::of(period_us);
            &&& 1_000 <= period_us <= 8_000 ==> c.period_us == period_us
            &&& period_us < 1_000 ==> c.period_us == 1_000
            &&& period_us > 8_000 ==> c.period_us == 8_000
            &&& c.sample_ms * 1000 <= c.period_us < c.sample_ms * 1000 + 1000
            &&& c.base_value * c.sample_ms <= 100 < c.base_value * c.sample_ms + c.sample_ms
            &&& c.lead_base * c.period_us <= 200_000 < c.lead_base * c.period_us + c.period_us
        }),
{
    let p = clamp_int(period_us, MIN_PERIOD_US as int, MAX_PERIOD_US as int);
    coefficient_ranges(p);
    let m = p / 1000;
    vstd::arithmetic::div_mod::lemma_fundamental_div_mod(100, m);
    vstd::arithmetic::div_mod::lemma_fundamental_div_mod(200_000, p);
    vstd::arithmetic::mul::lemma_mul_is_commutative(m, 100int / m);
    vstd::arithmetic::mul::lemma_mul_is_commutative(p, 200_000int / p);
}

/// The ranges that the coefficients of a period in its range lie in.
pub proof fn coefficient_ranges(p: int)
    requires
        MIN_PERIOD_US <= p <= MAX_PERIOD_US,
    ensures
        1 <= p / 1000 <= 8,
        12 <= 100int / (p / 1000) <= 100,
        25 <= 200_000int / p <= 200,
{
    let m = p / 1000;
    assert(12 <= 100int / m <= 100) by (nonlinear_arith)
        requires
            1 <= m <= 8,
    ;
    assert(25 <= 200_000int / p <= 200) by (nonlinear_arith)
        requires
            1000 <= p <= 8000,
    ;
}

} // verus!
