use vstd::prelude::*;

verus! {

/// A point in time: seconds since the Unix epoch and the nanoseconds past
/// that second.
#[derive(Debug, Clone, Copy, PartialEq, Eq, Structural)]
pub struct Timestamp {
    pub secs: i64,
    pub nanos: u32,
}

impl Timestamp {
    /// Nanoseconds since the Unix epoch.
    pub open spec fn total_nanos(self) -> int {
        self.secs * 1_000_000_000 + self.nanos
    }

    /// The whole seconds that pass from `self` to `end`: zero where `end` is
    /// not later, and never more than `u64::MAX`.
    pub open spec fn whole_seconds_until(self, end: Timestamp) -> nat {
        let elapsed = end.total_nanos() - self.total_nanos();
        if elapsed <= 0 {
            0
        } else if elapsed / 1_000_000_000 > u64::MAX {
            u64::MAX as nat
        } else {
            (elapsed / 1_000_000_000) as nat
        }
    }

    /// Whole milliseconds since the Unix epoch: zero for a time before it,
    /// and never more than `u64::MAX`.
    pub open spec fn unix_millis(self) -> u64 {
        if self.total_nanos() <= 0 {
            0
        } else if self.total_nanos() / 1_000_000 > u64::MAX {
            u64::MAX
        } else {
            (self.total_nanos() / 1_000_000) as u64
        }
    }

    /// Whole milliseconds since the Unix epoch.
    pub fn to_unix_millis(&self) -> (ms: u64)
        ensures
            ms == self.unix_millis(),
    {
        let total: i128 = self.secs as i128 * 1_000_000_000 + self.nanos as i128;
        if total <= 0 {
            0
        } else {
            let whole: i128 = total / 1_000_000;
            if whole > u64::MAX as i128 {
                u64::MAX
            } else {
                whole as u64
            }
        }
    }

    /// The whole seconds that pass from `self` to `end`.
    pub fn seconds_until(&self, end: &Timestamp) -> (d: u64)
        ensures
            d == self.whole_seconds_until(*end),
    {
        let from: i128 = self.secs as i128 * 1_000_000_000 + self.nanos as i128;
        let to: i128 = end.secs as i128 * 1_000_000_000 + end.nanos as i128;
        if to <= from {
            0
        } else {
            let whole: i128 = (to - from) / 1_000_000_000;
            if whole > u64::MAX as i128 {
                u64::MAX
            } else {
                whole as u64
            }
        }
    }
}

/// Two times with the same nanoseconds that lie `d` seconds apart are
/// measured as `d` whole seconds.
pub proof fn law_whole_seconds_of_an_exact_span(start: Timestamp, end: Timestamp, d: nat)
    requires
        start.nanos == end.nanos,
        end.secs - start.secs == d,
    ensures
        start.whole_seconds_until(end) == d,
{
    let elapsed = end.total_nanos() - start.total_nanos();
    assert(elapsed == d * 1_000_000_000);
    assert(d <= u64::MAX);
}

} // verus!
