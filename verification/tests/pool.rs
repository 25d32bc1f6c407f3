//! The pool controller: hiring, submission, shutdown, and whole runs driven
//! sequentially through `attempt`.

use std::cell::RefCell;
use std::rc::Rc;

use crew::Deque;
use crew::Directive;
use crew::DequeWorker;
use crew::Job;
use crew::Load;
use crew::Options;

/// A job that records its id when performed.
struct Recorder {
    id: usize,
    log: Rc<RefCell<Vec<usize>>>,
}

impl Job for Recorder {
    fn perform(self) {
        self.log.borrow_mut().push(self.id);
    }
}

/// Drive one worker's loop to its end, executing stolen jobs directly, and
/// report how many jobs it performed. Waiting directives are skipped: in a
/// sequential run there is nothing to yield to.
fn run_to_halt(w: &mut DequeWorker<Recorder>) -> usize {
    let mut performed: usize = 0;
    loop {
        match w.attempt() {
            Directive::Execute(job) => {
                job.perform();
                performed += 1;
            }
            Directive::Halt => return performed,
            Directive::Proceed | Directive::Yield | Directive::Rest => {}
        }
    }
}

#[test]
fn default_options() {
    let o = Options::default();
    assert_eq!(o.retry_threshold, 32);
    assert_eq!(o.cold_interval, 1);
    assert!(o.num_workers >= 1);
}

#[test]
fn num_workers_reports_the_configured_count() {
    let o = Options { retry_threshold: 32, cold_interval: 1, num_workers: 7 };
    assert_eq!(o.num_workers(), 7);
}

#[test]
fn hire_assigns_sequential_ids() {
    let mut pool: Deque<Recorder> =
        Deque::new(Options { retry_threshold: 32, cold_interval: 1, num_workers: 3 });
    let a = pool.hire();
    let b = pool.hire();
    let c = pool.hire();
    assert_eq!((a.id, b.id, c.id), (0, 1, 2));
    assert_eq!(a.load, Load::Hot);
    assert_eq!(a.retries, 0);
    assert_eq!(b.options.num_workers, 3);
}

#[test]
fn jobs_execute_exactly_once() {
    let options = Options { retry_threshold: 32, cold_interval: 1, num_workers: 1 };
    let mut pool = Deque::new(options);
    let log: Rc<RefCell<Vec<usize>>> = Rc::new(RefCell::new(Vec::new()));
    let n: usize = 5;
    for id in 0..n {
        pool.give(Recorder { id, log: Rc::clone(&log) });
    }
    pool.stop();
    let mut w = pool.hire();
    let performed = run_to_halt(&mut w);
    assert_eq!(performed, n);
    let mut seen = log.borrow().clone();
    seen.sort();
    assert_eq!(seen, vec![0, 1, 2, 3, 4]);
}

#[test]
fn a_stolen_job_re_heats_the_worker() {
    let options = Options { retry_threshold: 1, cold_interval: 1, num_workers: 1 };
    let mut pool: Deque<Recorder> = Deque::new(options);
    let log: Rc<RefCell<Vec<usize>>> = Rc::new(RefCell::new(Vec::new()));
    let mut w = pool.hire();
    w.nothing();
    w.nothing();
    assert_eq!(w.load, Load::Cold);
    pool.give(Recorder { id: 9, log: Rc::clone(&log) });
    match w.attempt() {
        Directive::Execute(job) => {
            assert_eq!(w.load, Load::Hot);
            job.perform();
        }
        _ => panic!("a submitted job should be stolen"),
    }
    assert_eq!(*log.borrow(), vec![9]);
}

#[test]
fn shutdown_halts_each_of_k_workers_once() {
    let k: usize = 3;
    let options = Options { retry_threshold: 32, cold_interval: 1, num_workers: k };
    let mut pool: Deque<Recorder> = Deque::new(options);
    let mut workers: Vec<DequeWorker<Recorder>> = Vec::new();
    for _ in 0..k {
        workers.push(pool.hire());
    }
    pool.stop();
    for w in workers.iter_mut() {
        // Each worker's loop ends on its first steal: one Stop each.
        assert!(matches!(w.attempt(), Directive::Halt));
    }
    // The queue is drained: one more attempt finds nothing, not a Stop.
    let mut extra = pool.hire();
    assert!(!matches!(extra.attempt(), Directive::Halt));
}

#[test]
fn five_jobs_then_shutdown_for_three_workers() {
    let options = Options { retry_threshold: 32, cold_interval: 1, num_workers: 3 };
    let mut pool = Deque::new(options);
    let log: Rc<RefCell<Vec<usize>>> = Rc::new(RefCell::new(Vec::new()));
    let mut workers: Vec<DequeWorker<Recorder>> = Vec::new();
    for _ in 0..3 {
        workers.push(pool.hire());
    }
    for id in 0..5 {
        pool.give(Recorder { id, log: Rc::clone(&log) });
    }
    pool.stop();
    // 8 entries cross the queue in all: 5 Work, then 3 Stop; each worker
    // terminates after consuming exactly one Stop.
    let mut consumed: usize = 0;
    for w in workers.iter_mut() {
        consumed += run_to_halt(w) + 1;
    }
    assert_eq!(consumed, 8);
    let mut seen = log.borrow().clone();
    seen.sort();
    assert_eq!(seen, vec![0, 1, 2, 3, 4]);
}
