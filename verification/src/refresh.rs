//! When background refreshes run.
//!
//! The provider's keys and metadata are fetched at startup and again on a
//! timer. This module decides what each tick of that timer means; the caller
//! owns the timer and performs the fetch.

use vstd::prelude::*;

verus! {

/// A background task that refreshes on a timer.
#[derive(Debug, Clone, Copy, PartialEq, Eq, Structural)]
pub struct RefreshTask {
    /// Seconds between two ticks.
    pub period_seconds: u64,
    /// Whether the tick that a timer fires at once has passed.
    pub started: bool,
}

/// The task for an interval, `None` when refreshing is disabled.
pub open spec fn spawned(interval_seconds: u64) -> Option<RefreshTask> {
    if interval_seconds == 0 {
        None
    } else {
        Some(RefreshTask { period_seconds: interval_seconds, started: false })
    }
}

/// How many refreshes `task` asks for in its next `ticks` ticks.
pub open spec fn refreshes(task: RefreshTask, ticks: nat) -> nat
    decreases ticks,
{
    if ticks == 0 {
        0
    } else {
        (if task.started {
            1nat
        } else {
            0nat
        }) + refreshes(RefreshTask { started: true, ..task }, (ticks - 1) as nat)
    }
}

impl RefreshTask {
    /// The task for an interval in seconds; 0 disables.
    pub fn spawn(interval_seconds: u64) -> (task: Option<Self>)
        ensures
            task == spawned(interval_seconds),
    {
        if interval_seconds == 0 {
            None
        } else {
            Some(RefreshTask { period_seconds: interval_seconds, started: false })
        }
    }

    /// What a tick asks for: whether to refresh now. The first tick fires
    /// immediately; startup already fetched, so it asks for nothing.
    pub fn tick(&mut self) -> (refresh: bool)
        ensures
            refresh == old(self).started,
            *final(self) == (RefreshTask { started: true, ..*old(self) }),
    {
        let refresh = self.started;
        self.started = true;
        refresh
    }
}

/// Every tick but the first one refreshes. The outcome of a refresh has no
/// part in it: a failed one is followed by another attempt at the next tick.
pub proof fn law_every_later_tick_refreshes(interval_seconds: u64, ticks: nat)
    requires
        interval_seconds != 0,
    ensures
        spawned(interval_seconds) is Some,
        refreshes(spawned(interval_seconds)->0, ticks + 1) == ticks,
{
    let task = RefreshTask { period_seconds: interval_seconds, started: true };
    lemma_started_task_refreshes(task, ticks);
}

/// A task that has seen its first tick refreshes at each tick.
proof fn lemma_started_task_refreshes(task: RefreshTask, ticks: nat)
    requires
        task.started,
    ensures
        refreshes(task, ticks) == ticks,
    decreases ticks,
{
    if ticks > 0 {
        lemma_started_task_refreshes(task, (ticks - 1) as nat);
    }
}

/// A task runs with exactly the interval it was given, and has not started;
/// without an interval there is none.
pub proof fn law_task_has_the_given_interval(interval_seconds: u64)
    ensures
        spawned(interval_seconds) is None <==> interval_seconds == 0,
        spawned(interval_seconds) matches Some(task) ==> task.period_seconds == interval_seconds
            && !task.started,
{
}

/// A tick asks for a refresh exactly when one has passed before it.
pub proof fn law_refreshes_count_started_ticks(task: RefreshTask, ticks: nat)
    ensures
        task.started ==> refreshes(task, ticks) == ticks,
        !task.started && ticks > 0 ==> refreshes(task, ticks) == ticks - 1,
        ticks == 0 ==> refreshes(task, ticks) == 0,
{
    if task.started {
        lemma_started_task_refreshes(task, ticks);
    } else if ticks > 0 {
        lemma_started_task_refreshes(RefreshTask { started: true, ..task }, (ticks - 1) as nat);
    }
}

} // verus!
