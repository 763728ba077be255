//! The single-poll decision core. Each polling loop makes one decision per
//! poll from three plain values: the condition's outcome, the elapsed time,
//! and the directive's bound. The decisions are spec functions here, the
//! loops' contracts are stated over them, and the executable deciders let a
//! caller drive the same logic from its own loop (for instance one whose
//! polls suspend instead of blocking).

use vstd::prelude::*;

verus! {

/// What a polling loop does after one poll.
#[derive(Clone, Copy, Debug, PartialEq, Eq, Structural)]
pub enum PollStep {
    /// The wait is over and has succeeded: stop polling.
    Succeed,
    /// The wait is over and has failed: report through the backend and stop.
    Fail,
    /// The wait goes on: sleep one interval and poll again.
    Sleep,
}

/// The upper-bound wait's decision: the condition must become true before
/// the deadline. The condition is consulted first, so a condition that is
/// true on the very first poll succeeds whatever the bound.
pub open spec fn until_step(cond: bool, elapsed_nanos: u64, duration_nanos: u64) -> PollStep {
    if cond {
        PollStep::Succeed
    } else if elapsed_nanos > duration_nanos {
        PollStep::Fail
    } else {
        PollStep::Sleep
    }
}

/// The lower-bound wait's decision: the condition must hold on every poll
/// until the bound has elapsed. The deadline is consulted first, so passing
/// it without a false observation is success.
pub open spec fn always_step(cond: bool, elapsed_nanos: u64, duration_nanos: u64) -> PollStep {
    if elapsed_nanos > duration_nanos {
        PollStep::Succeed
    } else if !cond {
        PollStep::Fail
    } else {
        PollStep::Sleep
    }
}

/// The single-shot wait's decision: the condition must become true at least
/// once before the bound elapses. The deadline is consulted first.
pub open spec fn once_step(cond: bool, elapsed_nanos: u64, duration_nanos: u64) -> PollStep {
    if elapsed_nanos > duration_nanos {
        PollStep::Fail
    } else if cond {
        PollStep::Succeed
    } else {
        PollStep::Sleep
    }
}

/// The executable upper-bound decider.
pub fn decide_until(cond: bool, elapsed_nanos: u64, duration_nanos: u64) -> (r: PollStep)
    ensures
        r == until_step(cond, elapsed_nanos, duration_nanos),
{
    if cond {
        PollStep::Succeed
    } else if elapsed_nanos > duration_nanos {
        PollStep::Fail
    } else {
        PollStep::Sleep
    }
}

/// The executable lower-bound decider.
pub fn decide_always(cond: bool, elapsed_nanos: u64, duration_nanos: u64) -> (r: PollStep)
    ensures
        r == always_step(cond, elapsed_nanos, duration_nanos),
{
    if elapsed_nanos > duration_nanos {
        PollStep::Succeed
    } else if !cond {
        PollStep::Fail
    } else {
        PollStep::Sleep
    }
}

/// The executable single-shot decider.
pub fn decide_once(cond: bool, elapsed_nanos: u64, duration_nanos: u64) -> (r: PollStep)
    ensures
        r == once_step(cond, elapsed_nanos, duration_nanos),
{
    if elapsed_nanos > duration_nanos {
        PollStep::Fail
    } else if cond {
        PollStep::Succeed
    } else {
        PollStep::Sleep
    }
}

/// Law: a condition that is true is all the upper-bound wait asks for — the
/// poll decides success at once, whatever the elapsed time and the bound,
/// so such a poll is never followed by a sleep.
pub proof fn lemma_until_on_true(elapsed_nanos: u64, duration_nanos: u64)
    ensures
        until_step(true, elapsed_nanos, duration_nanos) == PollStep::Succeed,
{
}

/// Law: with a false condition the upper-bound wait fails exactly when the
/// elapsed time has passed the bound, and sleeps on otherwise.
pub proof fn lemma_until_on_false(elapsed_nanos: u64, duration_nanos: u64)
    ensures
        until_step(false, elapsed_nanos, duration_nanos) == PollStep::Fail <==> elapsed_nanos
            > duration_nanos,
        until_step(false, elapsed_nanos, duration_nanos) == PollStep::Sleep <==> elapsed_nanos
            <= duration_nanos,
{
}

/// Law: up to the moment the deadline passes, the single-shot wait and the
/// upper-bound wait decide every poll identically; once the deadline has
/// passed they part ways only for a condition that is true on that very
/// poll (the upper-bound wait still succeeds, the single-shot wait has
/// already failed).
pub proof fn lemma_once_agrees_with_until(cond: bool, elapsed_nanos: u64, duration_nanos: u64)
    requires
        elapsed_nanos <= duration_nanos || !cond,
    ensures
        once_step(cond, elapsed_nanos, duration_nanos) == until_step(
            cond,
            elapsed_nanos,
            duration_nanos,
        ),
{
}

/// Law: a condition that is true on every poll never makes the lower-bound
/// wait fail; such a wait succeeds exactly when the elapsed time has passed
/// the bound.
pub proof fn lemma_always_on_true(elapsed_nanos: u64, duration_nanos: u64)
    ensures
        always_step(true, elapsed_nanos, duration_nanos) != PollStep::Fail,
        always_step(true, elapsed_nanos, duration_nanos) == PollStep::Succeed <==> elapsed_nanos
            > duration_nanos,
{
}

} // verus!
