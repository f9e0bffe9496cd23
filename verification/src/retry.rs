//! The retry backoff controller.
//!
//! The overlay-registration phase is driven to completion by an
//! unbounded retry loop: after every failed attempt the caller sleeps
//! for the current backoff and the backoff doubles, starting at one
//! second.  The doubling saturates once it no longer fits in a `u64`
//! of seconds, and a caller may bound the run by a maximum number of
//! failures, after which the controller orders cancellation instead
//! of another sleep.

use vstd::prelude::*;
use vstd::arithmetic::power2::pow2;
use vstd::arithmetic::power2::lemma_pow2_unfold;
use vstd::arithmetic::power2::lemma_pow2_strictly_increases;
use vstd::arithmetic::power2::lemma2_to64;
use vstd::arithmetic::power2::lemma2_to64_rest;

verus! {

/// The backoff, in seconds, after `n` failed attempts: doubling from
/// one second, saturating once it leaves `u64`.
pub open spec fn backoff_after(n: nat) -> u64 {
    if n <= 63 {
        pow2(n) as u64
    } else {
        u64::MAX
    }
}

/// What the caller must do after reporting an attempt's result.
pub enum RetryDecision {
    /// The attempt succeeded: the loop is over.
    Done,
    /// The attempt failed: sleep this many seconds, then try again.
    SleepThenRetry { sleep_secs: u64 },
    /// The attempt failed and the configured failure bound is
    /// reached: give up instead of sleeping.
    Cancelled,
}

/// The state of one retry loop: how often the operation has failed,
/// the sleep the next failure costs, and the optional failure bound.
pub struct RetryController {
    backoff_secs: u64,
    failures: u64,
    max_failures: Option<u64>,
}

impl RetryController {
    /// How often the operation has failed so far.
    pub closed spec fn spec_failures(self) -> u64 {
        self.failures
    }

    /// The failure bound this run was configured with, if any.
    pub closed spec fn spec_max_failures(self) -> Option<u64> {
        self.max_failures
    }

    /// The backoff always matches the failure count.
    pub closed spec fn wf(self) -> bool {
        self.backoff_secs == backoff_after(self.failures as nat)
    }

    /// A fresh controller: no failures yet, a one-second backoff, and
    /// an optional bound on the number of failures tolerated.
    pub fn new(max_failures: Option<u64>) -> (r: RetryController)
        ensures
            r.wf(),
            r.spec_failures() == 0,
            r.spec_max_failures() == max_failures,
    {
        proof {
            lemma2_to64();
        }
        RetryController { backoff_secs: 1, failures: 0, max_failures }
    }

    /// Report one attempt's result and learn what to do next.
    ///
    /// Success ends the loop at once.  A failure is charged to the
    /// failure count and costs a sleep of the backoff as it stood
    /// before the failure, after which the backoff has doubled —
    /// unless the failure count has reached the configured bound, in
    /// which case the run is cancelled instead of slept.
    pub fn on_result(&mut self, succeeded: bool) -> (d: RetryDecision)
        requires
            old(self).wf(),
        ensures
            final(self).wf(),
            final(self).spec_max_failures() == old(self).spec_max_failures(),
            succeeded ==> d is Done && *final(self) == *old(self),
            !succeeded ==> final(self).spec_failures() == (
            if old(self).spec_failures() < u64::MAX {
                old(self).spec_failures() + 1
            } else {
                u64::MAX as int
            }),
            !succeeded && !(old(self).spec_max_failures() matches Some(m)
                && final(self).spec_failures() >= m) ==> (d
                matches RetryDecision::SleepThenRetry { sleep_secs } && sleep_secs
                == backoff_after(old(self).spec_failures() as nat)),
            !succeeded && (old(self).spec_max_failures() matches Some(m)
                && final(self).spec_failures() >= m) ==> d is Cancelled,
    {
        if succeeded {
            return RetryDecision::Done;
        }
        let sleep_secs = self.backoff_secs;
        proof {
            lemma_backoff_doubles(self.failures as nat);
        }
        if self.backoff_secs <= u64::MAX / 2 {
            self.backoff_secs = self.backoff_secs * 2;
        } else {
            self.backoff_secs = u64::MAX;
        }
        if self.failures < u64::MAX {
            self.failures = self.failures + 1;
        }
        let cancelled = match self.max_failures {
            Some(max) => self.failures >= max,
            None => false,
        };
        if cancelled {
            RetryDecision::Cancelled
        } else {
            RetryDecision::SleepThenRetry { sleep_secs }
        }
    }
}

/// Saturated doubling carries the backoff from one failure count to
/// the next.
proof fn lemma_backoff_doubles(n: nat)
    ensures
        backoff_after(n) <= u64::MAX / 2 ==> backoff_after(n + 1) == 2 * backoff_after(n),
        backoff_after(n) > u64::MAX / 2 ==> backoff_after(n + 1) == u64::MAX,
{
    lemma2_to64();
    lemma2_to64_rest();
    if n < 63 {
        lemma_pow2_unfold(n + 1);
        if n < 62 {
            lemma_pow2_strictly_increases(n, 62);
        }
        if n + 1 < 63 {
            lemma_pow2_strictly_increases(n + 1, 63);
        }
    }
}

/// The backoff schedule is exactly exponential until it saturates:
/// the sleep after the first failure is one second, and every further
/// failure doubles it, so the sleep following the `k`-th failure of a
/// fresh, unbounded run is `2^(k-1)` seconds while `k - 1 < 64`.
pub proof fn lemma_backoff_schedule(n: nat)
    requires
        n < 64,
    ensures
        backoff_after(n) == pow2(n),
        backoff_after(0) == 1,
        n > 0 ==> backoff_after(n) == 2 * backoff_after((n - 1) as nat),
{
    lemma2_to64();
    lemma2_to64_rest();
    if n < 63 {
        lemma_pow2_strictly_increases(n, 63);
    }
    if n > 0 {
        lemma_pow2_unfold(n);
        lemma_pow2_strictly_increases((n - 1) as nat, 63);
    }
}

} // verus!
