//! Folds the device timestamp into the time between two reports.
//!
//! The device stamps each report with a 16-bit counter that ticks every 16/3 microseconds. Two
//! reports with the same stamp cannot be told apart by it, so the host clock steps in. Intervals
//! are exact in thirds of a nanosecond, the common unit of both clocks.

use vstd::prelude::*;

verus! {

/// Thirds of a nanosecond per device tick.
pub const TICK_THIRDS_NS: u64 = 16_000;

/// Longest interval (20 ms) in thirds of a nanosecond.
pub const DT_CLAMP_MAX_THIRDS_NS: u64 = 60_000_000;

/// Thirds of a nanosecond per microsecond.
pub const THIRDS_NS_PER_US: u64 = 3_000;

/// The interval between the previous report and one stamped `(ts, ns)`, in thirds of a nanosecond:
/// zero on the first report, else the device ticks modulo the 16-bit wrap, else (for a repeated
/// stamp) the host clock, and never more than 20 ms.
pub open spec fn interval(prev_ts: Option<u16>, prev_ns: u64, ts: u16, ns: u64) -> int {
    let raw = match prev_ts {
        None => 0,
        Some(p) => if ts != p {
            ((ts - p) % 0x1_0000) * TICK_THIRDS_NS
        } else if ns >= prev_ns {
            (ns - prev_ns) * 3
        } else {
            0
        },
    };
    if raw > DT_CLAMP_MAX_THIRDS_NS {
        DT_CLAMP_MAX_THIRDS_NS as int
    } else {
        raw
    }
}

/// The clock state between two reports: the last device stamp and the last host time.
///
/// The host time advances on every report, so that a fallback measures one interval only.
#[derive(Clone, Copy, Debug, PartialEq, Eq, Structural)]
pub struct SensorClock {
    prev_ts: Option<u16>,
    prev_qpc_ns: u64,
}

impl SensorClock {
    /// Stamp of the last report, or `None` before the first one.
    pub closed spec fn last_stamp(self) -> Option<u16> {
        self.prev_ts
    }

    /// Host time of the last report.
    pub closed spec fn last_host_ns(self) -> u64 {
        self.prev_qpc_ns
    }

    /// Takes the stamp and host time of a report and returns the interval since the previous one
    /// in thirds of a nanosecond. The first report after a reset gives 0, which callers take as
    /// "do not advance any filter".
    pub fn fold(&mut self, sensor_ts: u16, host_qpc_ns: u64) -> (r: u64)
        ensures
            r == interval(old(self).last_stamp(), old(self).last_host_ns(), sensor_ts, host_qpc_ns),
            final(self).last_stamp() == Some(sensor_ts),
            final(self).last_host_ns() == host_qpc_ns,
    {
        let r: u64 = match self.prev_ts {
            None => 0,
            Some(prev) => {
                let ticks: u16 = sensor_ts.wrapping_sub(prev);
                if ticks != 0 {
                    let t: u64 = ticks as u64 * TICK_THIRDS_NS;
                    if t > DT_CLAMP_MAX_THIRDS_NS {
                        DT_CLAMP_MAX_THIRDS_NS
                    } else {
                        t
                    }
                } else {
                    let ns: u64 = host_qpc_ns.saturating_sub(self.prev_qpc_ns);
                    if ns > DT_CLAMP_MAX_THIRDS_NS / 3 {
                        DT_CLAMP_MAX_THIRDS_NS
                    } else {
                        ns * 3
                    }
                }
            },
        };
        self.prev_ts = Some(sensor_ts);
        self.prev_qpc_ns = host_qpc_ns;
        r
    }

    /// Forgets the last report, so that the next [`fold`](Self::fold) gives 0.
    pub fn reset(&mut self)
        ensures
            final(self).last_stamp() is None,
            final(self).last_host_ns() == 0,
    {
        self.prev_ts = None;
        self.prev_qpc_ns = 0;
    }
}

impl Default for SensorClock {
    fn default() -> (r: SensorClock)
        ensures
            r.last_stamp() is None,
            r.last_host_ns() == 0,
    {
        SensorClock { prev_ts: None, prev_qpc_ns: 0 }
    }
}

/// The device interval does not see the 16-bit wrap: shifting both stamps by the same amount
/// leaves it unchanged.
pub proof fn interval_ignores_wrap(prev: u16, ts: u16, shift: u16, prev_ns: u64, ns: u64)
    requires
        prev != ts,
    ensures
        interval(
            Some(((prev + shift) % 0x1_0000) as u16),
            prev_ns,
            ((ts + shift) % 0x1_0000) as u16,
            ns,
        ) == interval(Some(prev), prev_ns, ts, ns),
{
}

/// `k` ticks of the device's clock are `k` times 16/3 microseconds, over the wrap too; reports with
/// the same stamp are as far apart as the host clock says, or not at all where that ran backwards;
/// the first report has no interval; and none is longer than 20 ms.
pub proof fn intervals_count_ticks(prev: u16, k: int, prev_ns: u64, ns: u64)
    requires
        0 < k < 65536,
    ensures
        ({
            let r = interval(Some(prev), prev_ns, ((prev + k) % 65536) as u16, ns);
            &&& k <= 3750 ==> r == 16_000 * k
            &&& k > 3750 ==> r == 60_000_000
        }),
        ({
            let r = interval(Some(prev), prev_ns, prev, ns);
            &&& ns <= prev_ns ==> r == 0
            &&& prev_ns <= ns <= prev_ns + 20_000_000 ==> r == 3 * (ns - prev_ns)
            &&& ns > prev_ns + 20_000_000 ==> r == 60_000_000
        }),
        interval(None, prev_ns, prev, ns) == 0,
{
}

} // verus!
