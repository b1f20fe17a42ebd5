//! The graceful-shutdown coordinator: an in-flight dispatch count and the
//! drain notification that gates termination.
//!
//! Every accepted connection increments the count before its dispatch is
//! spawned; the count decrements when the dispatch completes, success or
//! failure, and the decrement that reaches zero is the one firing of the
//! drain notification. After cancellation no increment occurs, so the wait
//! for termination is bounded: the drained notification or a fixed
//! timeout, whichever resolves first.

use vstd::prelude::*;

verus! {

/// Seconds an agent waits, after cancellation, for in-flight dispatches to
/// drain before abandoning them.
pub const DRAIN_TIMEOUT_SECS: u64 = 30;

/// The shared dispatch count and cancellation flag, used solely for
/// shutdown gating, never for admission control.
#[derive(Clone, Copy, Debug, PartialEq, Eq, Structural)]
pub struct ShutdownCoordinator {
    pub active: u64,
    pub cancelled: bool,
}

/// The effect of one dispatch completing: the count drops by one, and the
/// completion that reaches zero fires the drain notification.
pub open spec fn spec_complete(c: ShutdownCoordinator) -> (ShutdownCoordinator, bool)
    recommends
        c.active > 0,
{
    (ShutdownCoordinator { active: (c.active - 1) as u64, cancelled: c.cancelled }, c.active == 1)
}

/// The coordinator after `k` dispatches have completed.
pub open spec fn after_completions(c: ShutdownCoordinator, k: nat) -> ShutdownCoordinator
    decreases k,
{
    if k == 0 {
        c
    } else {
        spec_complete(after_completions(c, (k - 1) as nat)).0
    }
}

impl ShutdownCoordinator {
    /// A fresh coordinator: nothing in flight, not cancelled.
    pub fn new() -> (c: ShutdownCoordinator)
        ensures
            c.active == 0,
            !c.cancelled,
    {
        ShutdownCoordinator { active: 0, cancelled: false }
    }

    /// Counts a newly accepted connection, before its dispatch is spawned.
    /// Cancellation stops admission, so none is counted after it.
    pub fn register_dispatch(&mut self)
        requires
            !old(self).cancelled,
            old(self).active < u64::MAX,
        ensures
            final(self).active == old(self).active + 1,
            final(self).cancelled == old(self).cancelled,
    {
        self.active = self.active + 1;
    }

    /// Counts a dispatch completing, success or failure alike; reports
    /// whether this completion drained the agent, which is the one firing
    /// of the drain notification.
    pub fn complete_dispatch(&mut self) -> (drained: bool)
        requires
            old(self).active > 0,
        ensures
            (*final(self), drained) == spec_complete(*old(self)),
            final(self).active == old(self).active - 1,
            final(self).cancelled == old(self).cancelled,
            drained == (final(self).active == 0),
    {
        self.active = self.active - 1;
        self.active == 0
    }

    /// Records the external cancellation signal.
    pub fn cancel(&mut self)
        ensures
            final(self).active == old(self).active,
            final(self).cancelled,
    {
        self.cancelled = true;
    }

    /// Whether termination must wait for a drain at all: it must exactly
    /// when dispatches are still in flight.
    pub fn must_wait(&self) -> (w: bool)
        ensures
            w == (self.active > 0),
    {
        self.active > 0
    }
}

/// The instant the last of the given completions happens, or `cancelled_at`
/// itself when none is in flight.
pub open spec fn latest_completion(cancelled_at: u64, completions: Seq<u64>) -> int
    decreases completions.len(),
{
    if completions.len() == 0 {
        cancelled_at as int
    } else {
        let rest = latest_completion(cancelled_at, completions.drop_last());
        if completions.last() as int > rest {
            completions.last() as int
        } else {
            rest
        }
    }
}

/// The instant a draining agent terminates, out of the cancellation
/// instant and the completion instants of the dispatches then in flight.
pub open spec fn spec_termination_instant(cancelled_at: u64, completions: Seq<u64>) -> int {
    let deadline = cancelled_at + DRAIN_TIMEOUT_SECS;
    if latest_completion(cancelled_at, completions) <= deadline {
        latest_completion(cancelled_at, completions)
    } else {
        deadline
    }
}

proof fn lemma_latest_completion_bound(cancelled_at: u64, completions: Seq<u64>, bound: int)
    requires
        cancelled_at <= bound,
    ensures
        (latest_completion(cancelled_at, completions) <= bound) <==> (forall|i: int|
            0 <= i < completions.len() ==> completions[i] <= bound),
    decreases completions.len(),
{
    if completions.len() > 0 {
        lemma_latest_completion_bound(cancelled_at, completions.drop_last(), bound);
        assert(forall|i: int|
            0 <= i < completions.drop_last().len() ==> completions.drop_last()[i]
                == completions[i]);
        assert(completions.last() == completions[completions.len() - 1]);
    }
}

/// Bounded drain: if every dispatch in flight at cancellation completes
/// within the timeout, termination is exactly at the last completion — at
/// cancellation itself when none is in flight — and otherwise exactly at
/// the timeout.
pub proof fn law_bounded_drain(cancelled_at: u64, completions: Seq<u64>)
    requires
        cancelled_at + DRAIN_TIMEOUT_SECS <= u64::MAX,
    ensures
        (forall|i: int| 0 <= i < completions.len() ==> completions[i] <= cancelled_at
            + DRAIN_TIMEOUT_SECS) ==> spec_termination_instant(cancelled_at, completions)
            == latest_completion(cancelled_at, completions),
        completions.len() == 0 ==> spec_termination_instant(cancelled_at, completions)
            == cancelled_at,
        (exists|i: int| 0 <= i < completions.len() && completions[i] > cancelled_at
            + DRAIN_TIMEOUT_SECS) ==> spec_termination_instant(cancelled_at, completions)
            == cancelled_at + DRAIN_TIMEOUT_SECS,
{
    lemma_latest_completion_bound(
        cancelled_at,
        completions,
        cancelled_at + DRAIN_TIMEOUT_SECS,
    );
}

/// The drain notification fires exactly once per drain: over the
/// completions of the dispatches in flight at cancellation, the `j`-th
/// completion fires it exactly when it is the last one.
pub proof fn law_drain_notification_once(c: ShutdownCoordinator, j: nat)
    requires
        1 <= j <= c.active,
    ensures
        spec_complete(after_completions(c, (j - 1) as nat)).1 <==> j == c.active,
{
    lemma_after_completions_active(c, (j - 1) as nat);
}

proof fn lemma_after_completions_active(c: ShutdownCoordinator, k: nat)
    requires
        k <= c.active,
    ensures
        after_completions(c, k).active == c.active - k,
        after_completions(c, k).cancelled == c.cancelled,
    decreases k,
{
    if k > 0 {
        lemma_after_completions_active(c, (k - 1) as nat);
    }
}

/// Computes [`spec_termination_instant`]: the instant termination occurs,
/// given when cancellation came and when each dispatch then in flight
/// completes.
pub fn termination_instant(cancelled_at: u64, completions: &Vec<u64>) -> (t: u64)
    requires
        cancelled_at + DRAIN_TIMEOUT_SECS <= u64::MAX,
    ensures
        t == spec_termination_instant(cancelled_at, completions@),
{
    let deadline = cancelled_at + DRAIN_TIMEOUT_SECS;
    let mut latest: u64 = cancelled_at;
    let mut i: usize = 0;
    while i < completions.len()
        invariant
            i <= completions@.len(),
            latest == latest_completion(cancelled_at, completions@.subrange(0, i as int)),
        decreases completions@.len() - i,
    {
        proof {
            assert(completions@.subrange(0, i + 1).drop_last() =~= completions@.subrange(
                0,
                i as int,
            ));
            assert(completions@.subrange(0, i + 1).last() == completions@[i as int]);
        }
        if completions[i] > latest {
            latest = completions[i];
        }
        i += 1;
    }
    proof {
        assert(completions@.subrange(0, completions@.len() as int) =~= completions@);
    }
    if latest <= deadline {
        latest
    } else {
        deadline
    }
}

} // verus!
