//! Burst detection for the forfeit keyword: counts trigger messages inside a
//! rolling fixed interval and signals at most once per satisfied burst.

use vstd::prelude::*;

verus! {

/// Counts occurrences of the trigger keyword within the current interval.
///
/// The counter resets on a fixed cadence regardless of its value; when it
/// exceeds the threshold it signals once and resets in the same step, so the
/// same burst can never trigger twice. Deadlines are checked on the caller's
/// timer tick and may be observed up to one tick late. Timestamps are
/// milliseconds since the epoch.
pub struct RushCounter {
    pub count: u32,
    pub window_start: i64,
    pub interval_ms: i64,
    pub threshold: u32,
}

impl RushCounter {
    pub open spec fn wf(&self) -> bool {
        &&& self.window_start >= 0
        &&& self.interval_ms > 0
    }

    /// One more trigger message arrived (the count saturates rather than
    /// wrap).
    pub open spec fn spec_record(self) -> RushCounter {
        RushCounter {
            count: if self.count < u32::MAX {
                (self.count + 1) as u32
            } else {
                self.count
            },
            window_start: self.window_start,
            interval_ms: self.interval_ms,
            threshold: self.threshold,
        }
    }

    /// The timer-tick transition: signal and reset when the count exceeds
    /// the threshold; otherwise reset without signalling once the interval
    /// has elapsed; otherwise keep counting.
    pub open spec fn spec_tick(self, now: i64) -> (RushCounter, bool) {
        if self.count > self.threshold {
            (
                RushCounter {
                    count: 0,
                    window_start: now,
                    interval_ms: self.interval_ms,
                    threshold: self.threshold,
                },
                true,
            )
        } else if now - self.window_start >= self.interval_ms {
            (
                RushCounter {
                    count: 0,
                    window_start: now,
                    interval_ms: self.interval_ms,
                    threshold: self.threshold,
                },
                false,
            )
        } else {
            (self, false)
        }
    }

    /// A fresh counter whose interval starts at `now`.
    pub fn new(now: i64, interval_ms: i64, threshold: u32) -> (c: RushCounter)
        requires
            now >= 0,
            interval_ms > 0,
        ensures
            c.wf(),
            c.count == 0,
            c.window_start == now,
            c.interval_ms == interval_ms,
            c.threshold == threshold,
    {
        RushCounter { count: 0, window_start: now, interval_ms, threshold }
    }

    /// Count one trigger message.
    pub fn record(&mut self)
        ensures
            *final(self) == old(self).spec_record(),
    {
        if self.count < u32::MAX {
            self.count = self.count + 1;
        }
    }

    /// Drive the counter from the timer at time `now`; returns whether the
    /// rush action should fire.
    pub fn tick(&mut self, now: i64) -> (signal: bool)
        requires
            old(self).wf(),
            now >= 0,
        ensures
            final(self).wf(),
            (*final(self), signal) == old(self).spec_tick(now),
    {
        if self.count > self.threshold {
            self.count = 0;
            self.window_start = now;
            true
        } else if now >= self.window_start && now - self.window_start >= self.interval_ms {
            self.count = 0;
            self.window_start = now;
            false
        } else {
            false
        }
    }
}

/// A satisfied burst signals exactly once: a tick that signals also resets
/// the counter to zero in the same step, so whatever the clock says, the
/// next tick cannot signal again before further trigger messages arrive.
pub proof fn lemma_signal_resets_counter(c: RushCounter, now1: i64, now2: i64)
    ensures
        ({
            let (c1, s1) = c.spec_tick(now1);
            let (c2, s2) = c1.spec_tick(now2);
            s1 ==> c1.count == 0 && !s2
        }),
{
}

} // verus!
