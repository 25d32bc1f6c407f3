//! The worker activity state machine, exercised through a hired worker.

use crew::Deque;
use crew::Directive;
use crew::DequeWorker;
use crew::Job;
use crew::Load;
use crew::Options;

struct Nop;

impl Job for Nop {
    fn perform(self) {}
}

fn pool_with(options: Options) -> Deque<Nop> {
    Deque::new(options)
}

fn worker_with(options: Options) -> DequeWorker<Nop> {
    pool_with(options).hire()
}

#[test]
fn hired_worker_starts_hot() {
    let w = worker_with(Options { retry_threshold: 32, cold_interval: 1, num_workers: 1 });
    assert_eq!(w.load, Load::Hot);
    assert_eq!(w.retries, 0);
    assert_eq!(w.id, 0);
}

#[test]
fn scenario_empty_empty_empty_then_abort() {
    // retry_threshold 2, cold_interval 10 ms, one worker; outcomes Empty x3.
    let mut w = worker_with(Options { retry_threshold: 2, cold_interval: 10, num_workers: 1 });
    w.nothing();
    assert_eq!(w.load, Load::Warm);
    assert_eq!(w.retries, 0);
    w.nothing();
    assert_eq!(w.load, Load::Warm);
    assert_eq!(w.retries, 1);
    w.nothing();
    assert_eq!(w.load, Load::Cold);
    assert_eq!(w.retries, 2);
    // A subsequent Abort re-heats, with the retry count left at 2 — not reset.
    w.missed();
    assert_eq!(w.load, Load::Hot);
    assert_eq!(w.retries, 2);
}

#[test]
fn cold_reheats_on_abort_only() {
    let mut w = worker_with(Options { retry_threshold: 1, cold_interval: 1, num_workers: 1 });
    w.nothing();
    w.nothing();
    assert_eq!(w.load, Load::Cold);
    // Empty leaves a Cold worker Cold.
    w.nothing();
    assert_eq!(w.load, Load::Cold);
    w.nothing();
    assert_eq!(w.load, Load::Cold);
    // Abort re-heats it.
    w.missed();
    assert_eq!(w.load, Load::Hot);
}

#[test]
fn zero_threshold_cools_on_first_failure() {
    let mut w = worker_with(Options { retry_threshold: 0, cold_interval: 1, num_workers: 1 });
    w.nothing();
    assert_eq!(w.load, Load::Cold);
    // Even with the ramp disabled, contention re-heats a Cold worker ...
    w.missed();
    assert_eq!(w.load, Load::Hot);
    // ... and the very next failure, of either kind, cools it again.
    w.missed();
    assert_eq!(w.load, Load::Cold);
}

#[test]
fn threshold_counts_failures_while_warm() {
    // With threshold 3, Cold is reached on the fourth consecutive failure:
    // one to turn Warm, then three counted while Warm.
    let mut w = worker_with(Options { retry_threshold: 3, cold_interval: 1, num_workers: 1 });
    let mut failures: usize = 0;
    while w.load != Load::Cold {
        if failures % 2 == 0 {
            w.nothing();
        } else {
            w.missed();
        }
        failures += 1;
    }
    assert_eq!(failures, 4);
    assert_eq!(w.retries, 3);
}

#[test]
fn warm_entry_resets_retries_reheat_does_not() {
    let mut w = worker_with(Options { retry_threshold: 2, cold_interval: 1, num_workers: 1 });
    w.nothing();
    w.nothing();
    w.nothing();
    assert_eq!((w.load, w.retries), (Load::Cold, 2));
    w.missed();
    assert_eq!((w.load, w.retries), (Load::Hot, 2));
    // Hot -> Warm resets the count to zero.
    w.nothing();
    assert_eq!((w.load, w.retries), (Load::Warm, 0));
}

#[test]
fn does_sets_hot_from_any_level() {
    let mut w = worker_with(Options { retry_threshold: 1, cold_interval: 1, num_workers: 1 });
    w.nothing();
    w.nothing();
    assert_eq!(w.load, Load::Cold);
    w.does(Nop);
    assert_eq!(w.load, Load::Hot);
}

#[test]
fn wait_follows_the_level() {
    let mut w = worker_with(Options { retry_threshold: 2, cold_interval: 1, num_workers: 1 });
    assert!(matches!(w.wait(), Directive::Proceed));
    w.nothing();
    assert_eq!(w.load, Load::Warm);
    assert!(matches!(w.wait(), Directive::Yield));
    w.nothing();
    w.nothing();
    assert_eq!(w.load, Load::Cold);
    assert!(matches!(w.wait(), Directive::Rest));
}

#[test]
fn attempt_on_a_drained_queue_cools_down() {
    let mut pool: Deque<Nop> =
        Deque::new(Options { retry_threshold: 2, cold_interval: 1, num_workers: 1 });
    let mut w = pool.hire();
    let d = w.attempt();
    assert_eq!(w.load, Load::Warm);
    assert!(matches!(d, Directive::Yield));
}
