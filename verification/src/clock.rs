//! The hybrid logical clock itself.

use vstd::prelude::*;

use crate::model::{advanced, merged, ts_lt};
use crate::time::current_millis;

verus! {

/// A hybrid logical clock: physical wall-clock milliseconds paired with a
/// logical counter that disambiguates events within one millisecond. Under
/// lexicographic order the pair never decreases across `increment` and
/// `update`, whatever the wall clock does.
#[derive(Clone, Copy, Debug, PartialEq, Eq, Structural)]
pub struct HybridLogicalClock {
    /// Best-effort wall-clock time, milliseconds since the UNIX epoch.
    pub physical_time: u64,
    /// Disambiguates events that share the same `physical_time`.
    pub logical_counter: u64,
}

impl HybridLogicalClock {
    /// The timestamp this clock holds, as a pair of mathematical integers.
    pub open spec fn timestamp(self) -> (int, int) {
        (self.physical_time as int, self.logical_counter as int)
    }

    /// Create a clock initialized to the current wall-clock time, with the
    /// counter at zero.
    pub fn new() -> (c: Self)
        ensures
            c.logical_counter == 0,
    {
        HybridLogicalClock { physical_time: current_millis(), logical_counter: 0 }
    }

    /// Advance the clock for a local event, given the wall-clock reading
    /// `now`. If `now` has moved past the recorded physical time, adopt it
    /// and reset the counter; otherwise — same millisecond, or a wall clock
    /// that stepped backward — hold the physical time and increment the
    /// counter. Returns the post-update timestamp, which is strictly above
    /// the old one.
    pub fn increment_at(&mut self, now: u64) -> (t: (u64, u64))
        requires
            advanced(old(self).timestamp(), now as int).1 <= u64::MAX,
        ensures
            final(self).timestamp() == advanced(old(self).timestamp(), now as int),
            t == (final(self).physical_time, final(self).logical_counter),
            ts_lt(old(self).timestamp(), final(self).timestamp()),
    {
        if now > self.physical_time {
            self.physical_time = now;
            self.logical_counter = 0;
        } else {
            self.logical_counter = self.logical_counter + 1;
        }
        (self.physical_time, self.logical_counter)
    }

    /// Advance the clock for a local event at the current wall-clock time.
    /// Whatever reading the wall clock hands back, the new timestamp is
    /// strictly above the old one.
    pub fn increment(&mut self) -> (t: (u64, u64))
        requires
            old(self).logical_counter < u64::MAX,
        ensures
            t == (final(self).physical_time, final(self).logical_counter),
            exists|now: int|
                final(self).timestamp() == advanced(old(self).timestamp(), now),
            ts_lt(old(self).timestamp(), final(self).timestamp()),
    {
        let now = current_millis();
        let t = self.increment_at(now);
        proof {
            assert(final(self).timestamp() == advanced(old(self).timestamp(), now as int));
        }
        t
    }

    /// Merge the clock with a timestamp received from a remote event, given
    /// the wall-clock reading `now`. The physical time becomes the greatest
    /// of `now`, the remote physical time and the local one; the counter is
    /// chosen so the result lies strictly above both the remote timestamp
    /// and the clock's own prior value. Returns the post-update timestamp.
    pub fn update_at(&mut self, remote: &HybridLogicalClock, now: u64) -> (t: (u64, u64))
        requires
            merged(old(self).timestamp(), remote.timestamp(), now as int).1 <= u64::MAX,
        ensures
            final(self).timestamp() == merged(old(self).timestamp(), remote.timestamp(), now as int),
            t == (final(self).physical_time, final(self).logical_counter),
            ts_lt(old(self).timestamp(), final(self).timestamp()),
            ts_lt(remote.timestamp(), final(self).timestamp()),
    {
        let new_physical: u64 = if now >= remote.physical_time && now >= self.physical_time {
            now
        } else if remote.physical_time >= self.physical_time {
            remote.physical_time
        } else {
            self.physical_time
        };
        if new_physical == remote.physical_time && new_physical == self.physical_time {
            let greater: u64 = if self.logical_counter > remote.logical_counter {
                self.logical_counter
            } else {
                remote.logical_counter
            };
            self.logical_counter = greater + 1;
        } else if new_physical == remote.physical_time {
            self.logical_counter = remote.logical_counter + 1;
        } else if new_physical == self.physical_time {
            self.logical_counter = self.logical_counter + 1;
        } else {
            self.logical_counter = 0;
        }
        self.physical_time = new_physical;
        (self.physical_time, self.logical_counter)
    }

    /// Merge the clock with a received timestamp at the current wall-clock
    /// time. Whatever reading the wall clock hands back, the new timestamp
    /// is strictly above both the remote timestamp and the clock's own
    /// prior value.
    pub fn update(&mut self, remote: &HybridLogicalClock) -> (t: (u64, u64))
        requires
            old(self).logical_counter < u64::MAX,
            remote.logical_counter < u64::MAX,
        ensures
            t == (final(self).physical_time, final(self).logical_counter),
            exists|now: int|
                final(self).timestamp() == merged(old(self).timestamp(), remote.timestamp(), now),
            ts_lt(old(self).timestamp(), final(self).timestamp()),
            ts_lt(remote.timestamp(), final(self).timestamp()),
    {
        let now = current_millis();
        let t = self.update_at(remote, now);
        proof {
            assert(final(self).timestamp() == merged(
                old(self).timestamp(),
                remote.timestamp(),
                now as int,
            ));
        }
        t
    }

    /// Read the current timestamp. No side effect: the pair returned is
    /// exactly what the clock holds, so a read right after `increment` or
    /// `update` returns exactly the value that call produced.
    pub fn get_time(&self) -> (t: (u64, u64))
        ensures
            t == (self.physical_time, self.logical_counter),
    {
        (self.physical_time, self.logical_counter)
    }
}

} // verus!
