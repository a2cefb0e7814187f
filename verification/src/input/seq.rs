//! Drop and duplicate detection over the report counter.

use vstd::prelude::*;

verus! {

/// Follows a report counter that steps by one per report and wraps at 256.
#[derive(Clone, Copy, Debug, PartialEq, Eq, Structural)]
pub struct SeqTracker {
    prev: Option<u8>,
}

/// How many reports lie between counter values `prev` and `seq`, and whether the counter stood
/// still. Without a previous value nothing is missing.
pub open spec fn seq_gap(prev: Option<u8>, seq: u8) -> (int, bool) {
    match prev {
        None => (0, false),
        Some(p) => ((seq - p - 1) % 256, seq == p),
    }
}

impl SeqTracker {
    /// Counter of the last report, or `None` before the first one.
    pub closed spec fn last(self) -> Option<u8> {
        self.prev
    }

    /// Takes the counter of the next report and returns how many reports were skipped before it
    /// and whether it repeats the previous one.
    pub fn update(&mut self, seq: u8) -> (r: (u16, bool))
        ensures
            (r.0 as int, r.1) == seq_gap(old(self).last(), seq),
            final(self).last() == Some(seq),
    {
        let r: (u16, bool) = match self.prev {
            Some(p) => {
                let gap: u8 = seq.wrapping_sub(p).wrapping_sub(1);
                (gap as u16, p == seq)
            },
            None => (0, false),
        };
        self.prev = Some(seq);
        r
    }

    /// Forgets the last report, so that the next one starts afresh.
    pub fn reset(&mut self)
        ensures
            final(self).last() is None,
    {
        self.prev = None;
    }
}

impl Default for SeqTracker {
    fn default() -> (r: SeqTracker)
        ensures
            r.last() is None,
    {
        SeqTracker { prev: None }
    }
}

/// A counter that steps by one, over the wrap too, never reports a drop or a duplicate; one that
/// jumps by `k + 1` reports exactly `k` drops.
pub proof fn steady_counter_drops_nothing(prev: u8, k: int)
    requires
        0 <= k < 255,
    ensures
        seq_gap(Some(prev), ((prev + 1 + k) % 256) as u8) == (k, false),
{
}

/// A repeated counter is a duplicate, after 255 others at most; the first report is neither late
/// nor a duplicate.
pub proof fn repeated_counter_is_a_duplicate(prev: u8, seq: u8)
    ensures
        seq_gap(Some(prev), prev) == (255int, true),
        seq_gap(Some(prev), seq).1 <==> seq == prev,
        seq_gap(None, seq) == (0int, false),
{
}

} // verus!
