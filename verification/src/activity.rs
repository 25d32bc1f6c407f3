//! The worker activity ramp: the Hot/Warm/Cold state machine that governs how
//! eagerly a worker retries after a fruitless steal attempt.
//!
//! Evaluated once per loop iteration, immediately after a steal attempt:
//!
//! - a successful steal of a job re-heats the worker to Hot, whatever it was;
//! - a fruitless attempt applies [`miss_step`] (lost race) or [`idle_step`]
//!   (empty queue), which cool a worker down towards Cold;
//! - the resulting level fixes the wait before the next attempt: Hot retries
//!   at once, Warm yields cooperatively, Cold sleeps.
//!
//! With a positive retry threshold `t`, a Hot worker first turns Warm with a
//! retry count of zero, then each further failure increments the count until
//! it reaches `t` and the worker turns Cold. With a threshold of zero the ramp
//! is disabled: any failure from a non-Cold level drops straight to Cold. In
//! either case a Cold worker re-heats to Hot only on a lost race — strong
//! evidence that work exists — and stays Cold on an empty queue; re-heating
//! keeps the retry count, while entering Warm from Hot resets it.

use vstd::prelude::*;

verus! {

/// A worker's self-tracked activity level. Owned exclusively by its worker;
/// never shared or synchronized.
#[derive(Clone, Copy, Debug, PartialEq, Eq, Structural)]
pub enum Load {
    /// Running at full speed: no wait between steal attempts.
    Hot,
    /// Cooling down: yields the thread cooperatively between attempts.
    Warm,
    /// Idle: sleeps at least the configured cold interval between attempts.
    Cold,
}

/// The two steal outcomes that yield no message: a lost race with a concurrent
/// operation, or a genuinely empty queue. Contention is the stronger signal
/// that work is near.
#[derive(Clone, Copy, Debug, PartialEq, Eq, Structural)]
pub enum Failure {
    /// The attempt lost a race; the queue may still hold items.
    Abort,
    /// The queue held nothing at the time of the attempt.
    Empty,
}

/// One more fruitless attempt while Warm: the retry count grows, and reaching
/// the threshold turns the worker Cold.
pub open spec fn cooler_step(retries: u32, threshold: u32) -> (Load, u32) {
    (
        if retries + 1 >= threshold {
            Load::Cold
        } else {
            Load::Warm
        },
        (retries + 1) as u32,
    )
}

/// The activity transition after a steal attempt that lost a race (Abort).
/// A Cold worker re-heats to Hot, keeping its retry count; otherwise, with the
/// ramp disabled (threshold 0) the worker drops straight to Cold, a Hot worker
/// turns Warm with the count reset, and a Warm worker cools by one step.
pub open spec fn miss_step(load: Load, retries: u32, threshold: u32) -> (Load, u32) {
    if load == Load::Cold {
        (Load::Hot, retries)
    } else if threshold == 0 {
        (Load::Cold, retries)
    } else if load == Load::Hot {
        (Load::Warm, 0u32)
    } else {
        cooler_step(retries, threshold)
    }
}

/// The activity transition after a steal attempt that found the queue empty.
/// As [`miss_step`], except that a Cold worker stays Cold: emptiness is no
/// evidence that work is near.
pub open spec fn idle_step(load: Load, retries: u32, threshold: u32) -> (Load, u32) {
    if load == Load::Cold {
        (Load::Cold, retries)
    } else if threshold == 0 {
        (Load::Cold, retries)
    } else if load == Load::Hot {
        (Load::Warm, 0u32)
    } else {
        cooler_step(retries, threshold)
    }
}

/// The activity transition for a fruitless steal attempt of either kind.
pub open spec fn fail_step(load: Load, retries: u32, threshold: u32, f: Failure) -> (Load, u32) {
    match f {
        Failure::Abort => miss_step(load, retries, threshold),
        Failure::Empty => idle_step(load, retries, threshold),
    }
}

/// The activity state after a whole sequence of fruitless attempts, applied in
/// order.
pub open spec fn run_failures(load: Load, retries: u32, threshold: u32, fs: Seq<Failure>) -> (
    Load,
    u32,
)
    decreases fs.len(),
{
    if fs.len() == 0 {
        (load, retries)
    } else {
        let stepped = fail_step(load, retries, threshold, fs[0]);
        run_failures(stepped.0, stepped.1, threshold, fs.drop_first())
    }
}

/// While Warm, the retry count has not yet reached the threshold. Every
/// activity transition preserves this; a worker is hired Hot, so it holds from
/// the start.
pub open spec fn activity_wf(load: Load, retries: u32, threshold: u32) -> bool {
    load == Load::Warm ==> retries < threshold
}

/// Every single transition preserves well-formedness of the activity state.
pub proof fn lemma_fail_step_wf(load: Load, retries: u32, threshold: u32, f: Failure)
    requires
        activity_wf(load, retries, threshold),
    ensures
        activity_wf(
            fail_step(load, retries, threshold, f).0,
            fail_step(load, retries, threshold, f).1,
            threshold,
        ),
{
}

/// Law: with the ramp disabled (threshold 0), any fruitless steal attempt from
/// a non-Cold activity level drops the worker straight to Cold.
pub proof fn lemma_zero_threshold_cools_at_once(load: Load, retries: u32, f: Failure)
    requires
        load != Load::Cold,
    ensures
        fail_step(load, retries, 0, f).0 == Load::Cold,
{
}

/// Law: a Cold worker re-heats to Hot exactly on a lost race, keeping its retry
/// count; an empty queue leaves it Cold. This holds whatever the threshold.
pub proof fn lemma_cold_reheats_only_on_abort(retries: u32, threshold: u32)
    ensures
        fail_step(Load::Cold, retries, threshold, Failure::Abort) == (Load::Hot, retries),
        fail_step(Load::Cold, retries, threshold, Failure::Empty) == (Load::Cold, retries),
{
}

/// How many further fruitless attempts a non-Cold worker can absorb before it
/// could possibly be Cold: a Hot worker must first pass through Warm.
pub open spec fn failures_to_cold(load: Load, retries: u32, threshold: u32) -> int {
    if load == Load::Hot {
        threshold + 1
    } else {
        threshold - retries
    }
}

/// A well-formed, non-Cold activity state reaches Cold only after at least
/// [`failures_to_cold`] fruitless attempts.
proof fn lemma_failure_budget(load: Load, retries: u32, threshold: u32, fs: Seq<Failure>)
    requires
        threshold > 0,
        load != Load::Cold,
        activity_wf(load, retries, threshold),
        run_failures(load, retries, threshold, fs).0 == Load::Cold,
    ensures
        fs.len() >= failures_to_cold(load, retries, threshold),
    decreases fs.len(),
{
    let stepped = fail_step(load, retries, threshold, fs[0]);
    lemma_fail_step_wf(load, retries, threshold, fs[0]);
    if stepped.0 != Load::Cold {
        lemma_failure_budget(stepped.0, stepped.1, threshold, fs.drop_first());
    }
}

/// Law (activity monotonicity): with a positive retry threshold, a Hot worker
/// reaches Cold only after more than `threshold` consecutive fruitless steal
/// attempts — one that turns it Warm, then `threshold` more while Warm.
pub proof fn lemma_activity_monotonic(retries: u32, threshold: u32, fs: Seq<Failure>)
    requires
        threshold > 0,
        run_failures(Load::Hot, retries, threshold, fs).0 == Load::Cold,
    ensures
        fs.len() > threshold,
{
    lemma_failure_budget(Load::Hot, retries, threshold, fs);
}

} // verus!
