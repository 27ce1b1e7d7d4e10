//! Time-windowed failure counter deciding between retrying and stopping.
use vstd::prelude::*;

verus! {

/// What the owner of a counter does after an incident.
#[derive(Clone, Copy, Debug, PartialEq, Eq, Structural)]
pub enum Decision {
    Continue,
    Stop,
}

/// Counts incidents that follow each other closely. Times are seconds on a
/// monotonic clock chosen by the owner.
#[derive(Clone, Copy, Debug)]
pub struct EscalationCounter {
    /// An incident later than this many seconds after the previous one starts
    /// the count afresh.
    pub quiet_window: u64,
    /// The largest count that still allows a retry.
    pub threshold: u64,
    /// When the previous incident happened (or when the counter was made).
    pub last_incident: u64,
    /// Incidents counted since the last quiet period.
    pub count: u64,
}

impl EscalationCounter {
    /// Whether an incident at `now` comes after a quiet period.
    pub open spec fn is_quiet_before(self, now: u64) -> bool {
        now > self.last_incident && now - self.last_incident > self.quiet_window
    }

    /// The counter after an incident at `now`.
    pub open spec fn after_incident(self, now: u64) -> EscalationCounter {
        let base: u64 = if self.is_quiet_before(now) { 0 } else { self.count };
        EscalationCounter {
            last_incident: now,
            count: if base < u64::MAX { (base + 1) as u64 } else { base },
            ..self
        }
    }

    /// The decision taken by a counter whose count is already updated.
    pub open spec fn decision(self) -> Decision {
        if self.count > self.threshold { Decision::Stop } else { Decision::Continue }
    }

    /// The counter after incidents at each of `times`, in order.
    pub open spec fn replay(self, times: Seq<u64>) -> EscalationCounter
        decreases times.len(),
    {
        if times.len() == 0 {
            self
        } else {
            self.replay(times.drop_last()).after_incident(times.last())
        }
    }

    /// A fresh counter: no incidents yet, the quiet period measured from `now`.
    pub open spec fn new_spec(quiet_window: u64, threshold: u64, now: u64) -> EscalationCounter {
        EscalationCounter { quiet_window, threshold, last_incident: now, count: 0 }
    }

    /// A fresh counter: no incidents yet, the quiet period measured from `now`.
    pub fn new(quiet_window: u64, threshold: u64, now: u64) -> (r: Self)
        ensures
            r == Self::new_spec(quiet_window, threshold, now),
    {
        EscalationCounter { quiet_window, threshold, last_incident: now, count: 0 }
    }

    /// Records an incident at `now` and says whether its owner may go on.
    pub fn record_incident(&mut self, now: u64) -> (r: Decision)
        ensures
            *final(self) == old(self).after_incident(now),
            r == final(self).decision(),
            r == Decision::Stop <==> final(self).count > final(self).threshold,
    {
        if now > self.last_incident && now - self.last_incident > self.quiet_window {
            self.count = 0;
        }
        if self.count < u64::MAX {
            self.count = self.count + 1;
        }
        self.last_incident = now;
        if self.count > self.threshold {
            Decision::Stop
        } else {
            Decision::Continue
        }
    }
}

/// Whether each of `times` comes at most `window` seconds after the one
/// before it, the first at most `window` seconds after `start`, and none
/// before its predecessor.
pub open spec fn close_together(start: u64, times: Seq<u64>, window: u64) -> bool {
    forall|i: int|
        0 <= i < times.len() ==> {
            let prev = if i == 0 { start } else { times[i - 1] };
            prev <= #[trigger] times[i] && times[i] - prev <= window
        }
}

/// After N incidents, each within the quiet window of the one before, a
/// fresh counter reports N.
pub proof fn lemma_count_within_window(c: EscalationCounter, times: Seq<u64>)
    requires
        c.count == 0,
        close_together(c.last_incident, times, c.quiet_window),
        times.len() < u64::MAX,
    ensures
        c.replay(times).count == times.len(),
        times.len() > 0 ==> c.replay(times).last_incident == times.last(),
        c.replay(times).quiet_window == c.quiet_window,
        c.replay(times).threshold == c.threshold,
    decreases times.len(),
{
    if times.len() > 0 {
        let prefix = times.drop_last();
        assert(close_together(c.last_incident, prefix, c.quiet_window)) by {
            assert forall|i: int| 0 <= i < prefix.len() implies {
                let prev = if i == 0 { c.last_incident } else { prefix[i - 1] };
                prev <= #[trigger] prefix[i] && prefix[i] - prev <= c.quiet_window
            } by {
                assert(prefix[i] == times[i]);
                if i > 0 {
                    assert(prefix[i - 1] == times[i - 1]);
                }
            }
        }
        lemma_count_within_window(c, prefix);
        let last_i = times.len() - 1;
        assert(times[last_i] == times.last());
        let before = c.replay(prefix);
        if last_i > 0 {
            assert(prefix.last() == times[last_i - 1]);
        } else {
            assert(prefix.len() == 0);
            assert(before == c);
        }
        assert(!before.is_quiet_before(times.last()));
    }
}

/// An incident strictly after the quiet window starts the count again at one.
pub proof fn lemma_reset_after_quiet_window(c: EscalationCounter, now: u64)
    requires
        now > c.last_incident,
        now - c.last_incident > c.quiet_window,
    ensures
        c.after_incident(now).count == 1,
{
}

/// The decision is `Stop` exactly when the count after the incident exceeds
/// the threshold: never while the count is at or below it.
pub proof fn lemma_stop_iff_over_threshold(c: EscalationCounter, now: u64)
    ensures
        c.after_incident(now).decision() == Decision::Stop <==> c.after_incident(now).count
            > c.threshold,
{
}

} // verus!
