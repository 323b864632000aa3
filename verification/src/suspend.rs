//! The suspension detector: counts recent failures of one task and decides
//! when automatic retriggering must pause.

use vstd::prelude::*;

use crate::clock::now_millis;

verus! {

/// Width of the failure window, in milliseconds.
pub const SUSPENSION_TIMESPAN_MILLIS: i64 = 3000;

/// Failures that latch suspension.
pub const SUSPENSION_FAILURES: usize = 6;

/// Tracks failures of one task: the start of the current window, the
/// failures counted since the last reset, and the latched verdict.
#[derive(Clone, Copy, Debug, PartialEq, Eq, Structural)]
pub struct SuspensionDetector {
    pub start_time: Option<i64>,
    pub failures: usize,
    pub has_suspended: bool,
}

/// A detector that has seen nothing since its last reset.
pub open spec fn fresh_detector() -> SuspensionDetector {
    SuspensionDetector { start_time: None, failures: 0, has_suspended: false }
}

impl SuspensionDetector {
    /// An unlatched detector has not yet counted enough failures to latch;
    /// this also keeps the counter from overflowing.
    pub open spec fn wf(self) -> bool {
        &&& self.failures <= SUSPENSION_FAILURES
        &&& !self.has_suspended ==> self.failures < SUSPENSION_FAILURES
    }

    /// The failure falls within the open window. The elapsed time saturates
    /// at zero when the clock reads earlier than the window's start.
    pub open spec fn within_window(self, now: i64) -> bool {
        self.start_time matches Some(st) && now - st <= SUSPENSION_TIMESPAN_MILLIS
    }

    /// The detector after one recorded failure at instant `now`. A latched
    /// detector is unchanged. Otherwise the failure is counted; if it falls
    /// within the open window and reaches the threshold, suspension latches
    /// with the window kept, else a new window opens at `now` and suspension
    /// still latches if the count has reached the threshold.
    pub open spec fn after_fail(self, now: i64) -> SuspensionDetector {
        if self.has_suspended {
            self
        } else {
            let f = (self.failures + 1) as usize;
            if self.within_window(now) && f >= SUSPENSION_FAILURES {
                SuspensionDetector { failures: f, has_suspended: true, ..self }
            } else {
                SuspensionDetector {
                    start_time: Some(now),
                    failures: f,
                    has_suspended: f >= SUSPENSION_FAILURES,
                }
            }
        }
    }

    /// The detector after failures at each instant of `times`, in order.
    pub open spec fn after_fails(self, times: Seq<i64>) -> SuspensionDetector
        decreases times.len(),
    {
        if times.len() == 0 {
            self
        } else {
            self.after_fail(times[0]).after_fails(times.drop_first())
        }
    }

    pub fn new() -> (r: SuspensionDetector)
        ensures
            r == fresh_detector(),
    {
        SuspensionDetector { start_time: None, failures: 0, has_suspended: false }
    }

    pub fn suspended(&self) -> (r: bool)
        ensures
            r == self.has_suspended,
    {
        self.has_suspended
    }

    /// Record one failure at instant `now`; the result says whether the
    /// detector is (now or already) latched.
    pub fn fail_at(&mut self, now: i64) -> (r: bool)
        requires
            old(self).wf(),
        ensures
            *final(self) == old(self).after_fail(now),
            r == final(self).has_suspended,
            final(self).wf(),
    {
        if self.has_suspended {
            return true;
        }
        self.failures = self.failures + 1;
        let in_window = match self.start_time {
            Some(st) => (now as i128) - (st as i128) <= (SUSPENSION_TIMESPAN_MILLIS as i128),
            None => false,
        };
        if in_window && self.failures >= SUSPENSION_FAILURES {
            self.has_suspended = true;
            return true;
        }
        self.start_time = Some(now);
        if self.failures >= SUSPENSION_FAILURES {
            self.has_suspended = true;
            return true;
        }
        false
    }

    /// Record one failure at the current wall-clock time. Whatever the clock
    /// reads, the verdict is latched exactly when this failure is at least
    /// the sixth since the last reset.
    pub fn fail(&mut self) -> (r: bool)
        requires
            old(self).wf(),
        ensures
            exists|now: i64| *final(self) == old(self).after_fail(now),
            final(self).has_suspended == (old(self).has_suspended || old(self).failures + 1
                >= SUSPENSION_FAILURES),
            r == final(self).has_suspended,
            final(self).wf(),
    {
        let now = now_millis();
        let r = self.fail_at(now);
        proof {
            lemma_fail_verdict_time_independent(*old(self), now);
        }
        r
    }

    /// Clear the window, the counter and the latch.
    pub fn reset(&mut self)
        ensures
            *final(self) == fresh_detector(),
    {
        self.start_time = None;
        self.failures = 0;
        self.has_suspended = false;
    }
}

/// The verdict after a failure does not depend on the clock: whatever the
/// instant, the detector is latched afterwards exactly when the failure is
/// at least its sixth since the last reset. (The window only decides which
/// start instant the detector keeps, never the verdict.)
pub proof fn lemma_fail_verdict_time_independent(d: SuspensionDetector, now: i64)
    requires
        d.wf(),
    ensures
        d.after_fail(now).has_suspended == (d.has_suspended || d.failures + 1
            >= SUSPENSION_FAILURES),
        d.after_fail(now).wf(),
{
}

/// Counting several failures: suspension latches exactly when the count
/// since the last reset reaches the threshold, at whatever instants the
/// failures occur.
pub proof fn lemma_fails_latch_by_count(d: SuspensionDetector, times: Seq<i64>)
    requires
        d.wf(),
    ensures
        d.after_fails(times).has_suspended == (d.has_suspended || d.failures + times.len()
            >= SUSPENSION_FAILURES),
        d.after_fails(times).wf(),
    decreases times.len(),
{
    if times.len() > 0 {
        lemma_fail_verdict_time_independent(d, times[0]);
        lemma_fails_latch_by_count(d.after_fail(times[0]), times.drop_first());
    }
}

/// Six consecutive failures latch a fresh detector — whether or not they
/// fall within the three-second window — and five do not.
pub proof fn lemma_sixth_failure_latches(times: Seq<i64>)
    ensures
        times.len() >= SUSPENSION_FAILURES ==> fresh_detector().after_fails(
            times,
        ).has_suspended,
        times.len() < SUSPENSION_FAILURES ==> !fresh_detector().after_fails(
            times,
        ).has_suspended,
{
    lemma_fails_latch_by_count(fresh_detector(), times);
}

} // verus!
