//! The crew over crossbeam's lock-free Chase-Lev deque: the pool controller
//! that owns the producer side, and the per-thread worker that steals from it.
//!
//! A worker's loop is driven from outside: each call of
//! [`DequeWorker::attempt`] makes one steal attempt and says what must follow
//! — execute a stolen job, halt on the stop sentinel, or wait as the new
//! activity level demands. The caller performs the actual yield or sleep (and
//! chooses whether a job runs unprotected or inside a fault-containment
//! region); every decision is made, and verified, here.
//!
//! Queue traffic is pinned through the trusted records of [`Producer`] and
//! [`Consumer`]: the contracts of submission, shutdown and the worker's steal
//! speak of messages that really crossed the queue, and a worker halts
//! exactly on a really-stolen Stop.

use vstd::prelude::*;

use crate::activity::Load;
use crate::activity::cooler_step;
use crate::activity::idle_step;
use crate::activity::miss_step;
use crate::backend::Consumer;
use crate::backend::Producer;
use crate::backend::Steal;
use crate::backend::clone_stealer;
use crate::backend::cpu_count;
use crate::backend::new_queue;
use crate::backend::push_message;
use crate::backend::queue_stealer;
use crate::backend::steal_message;
use crate::job::Job;
use crate::job::Message;
use crate::job::MessageTag;

verus! {

/// Tuning values for the crew, copied — never referenced — into each worker at
/// hire time, and immutable thereafter.
#[derive(Clone, Copy, Debug, PartialEq, Eq, Structural)]
pub struct Options {
    /// How many times a worker may fail to acquire a job before it becomes
    /// Cold; 0 disables the Warm ramp entirely.
    pub retry_threshold: u32,
    /// The least number of milliseconds a Cold worker sleeps between attempts:
    /// a floor, not an exact duration.
    pub cold_interval: u64,
    /// The number of workers the pool is meant to run; also exactly how many
    /// Stop messages a shutdown request pushes.
    pub num_workers: usize,
}

impl Options {
    /// The configured worker count.
    pub fn num_workers(&self) -> (n: usize)
        ensures
            n == self.num_workers,
    {
        self.num_workers
    }
}

impl Default for Options {
    /// Defaults: a retry threshold of 32, a one-millisecond cold interval, and
    /// one worker per logical core of the host.
    fn default() -> (o: Options)
        ensures
            o.retry_threshold == 32,
            o.cold_interval == 1,
            o.num_workers >= 1,
    {
        Options { retry_threshold: 32, cold_interval: 1, num_workers: cpu_count() }
    }
}

/// What the driver of a worker's loop must do next, as decided by one call of
/// [`DequeWorker::attempt`].
pub enum Directive<J> {
    /// A job was stolen: execute it — directly, or inside a fault-containment
    /// region — then attempt again at once; the worker is already Hot.
    Execute(J),
    /// The stop sentinel was stolen: the loop is over.
    Halt,
    /// Hot: attempt again immediately, with no delay.
    Proceed,
    /// Warm: yield the thread cooperatively, then attempt again.
    Yield,
    /// Cold: sleep at least `cold_interval` milliseconds, then attempt again.
    Rest,
}

/// The wait policy: what a worker at the given activity level does between
/// steal attempts.
pub open spec fn wait_of<J>(load: Load) -> Directive<J> {
    match load {
        Load::Hot => Directive::Proceed,
        Load::Warm => Directive::Yield,
        Load::Cold => Directive::Rest,
    }
}

/// One worker of the crew: identity, activity state, a copy of the
/// configuration, and a consumer handle into the shared queue. Its loop runs
/// on a caller-managed thread, one [`attempt`](Self::attempt) per iteration.
#[verifier::reject_recursive_types(J)]
pub struct DequeWorker<J> {
    /// Sequential id, assigned once at hire and never reused.
    pub id: usize,
    /// Current activity level; owned exclusively by this worker.
    pub load: Load,
    /// Fruitless attempts accumulated while Warm; meaningful only while not
    /// Cold, and not reset when a Cold worker re-heats.
    pub retries: u32,
    /// The pool's configuration, copied at hire time.
    pub options: Options,
    /// Consumer handle into the shared queue, carrying the trusted record of
    /// what this worker has stolen.
    pub stealer: Consumer<J>,
}

impl<J> DequeWorker<J> {
    /// Well-formedness: while Warm, the retry count is still under the
    /// threshold. Hiring establishes this and every transition preserves it.
    pub open spec fn wf(self) -> bool {
        self.load == Load::Warm ==> self.retries < self.options.retry_threshold
    }

    /// Every message this worker has stolen, in order.
    pub open spec fn taken(self) -> Seq<MessageTag> {
        self.stealer.taken()
    }

    /// The parts of a worker that no activity transition ever touches.
    pub open spec fn same_identity(self, other: Self) -> bool {
        &&& other.id == self.id
        &&& other.options == self.options
        &&& other.stealer == self.stealer
    }
}

impl<J: Job> DequeWorker<J> {
    /// Enter Warm from Hot, resetting the retry count.
    fn become_warm(&mut self)
        ensures
            old(self).same_identity(*final(self)),
            final(self).load == Load::Warm,
            final(self).retries == 0,
    {
        self.load = Load::Warm;
        self.retries = 0;
    }

    /// One more fruitless attempt while Warm: count it, and become Cold once
    /// the count reaches the threshold.
    fn become_cooler(&mut self)
        requires
            old(self).load == Load::Warm,
            old(self).wf(),
        ensures
            old(self).same_identity(*final(self)),
            ((final(self).load, final(self).retries) == cooler_step(
                old(self).retries,
                old(self).options.retry_threshold,
            )),
    {
        self.retries = self.retries + 1;
        if self.retries >= self.options.retry_threshold {
            self.load = Load::Cold;
        }
    }

    /// React to a steal attempt that lost a race (Abort). Contention is strong
    /// evidence that work is near, so a Cold worker re-heats to Hot — keeping
    /// its retry count; otherwise the worker cools one step, or drops straight
    /// to Cold if the ramp is disabled.
    pub fn missed(&mut self)
        requires
            old(self).wf(),
        ensures
            final(self).wf(),
            old(self).same_identity(*final(self)),
            ((final(self).load, final(self).retries) == miss_step(
                old(self).load,
                old(self).retries,
                old(self).options.retry_threshold,
            )),
    {
        match self.load {
            Load::Cold => {
                self.load = Load::Hot;
            },
            Load::Hot => {
                if self.options.retry_threshold == 0 {
                    self.load = Load::Cold;
                } else {
                    self.become_warm();
                }
            },
            Load::Warm => {
                if self.options.retry_threshold == 0 {
                    self.load = Load::Cold;
                } else {
                    self.become_cooler();
                }
            },
        }
    }

    /// React to a steal attempt that found the queue empty. Emptiness is no
    /// evidence of work, so a Cold worker stays Cold; otherwise the worker
    /// cools one step, or drops straight to Cold if the ramp is disabled.
    pub fn nothing(&mut self)
        requires
            old(self).wf(),
        ensures
            final(self).wf(),
            old(self).same_identity(*final(self)),
            ((final(self).load, final(self).retries) == idle_step(
                old(self).load,
                old(self).retries,
                old(self).options.retry_threshold,
            )),
    {
        match self.load {
            Load::Cold => {},
            Load::Hot => {
                if self.options.retry_threshold == 0 {
                    self.load = Load::Cold;
                } else {
                    self.become_warm();
                }
            },
            Load::Warm => {
                if self.options.retry_threshold == 0 {
                    self.load = Load::Cold;
                } else {
                    self.become_cooler();
                }
            },
        }
    }

    /// Perform a freshly stolen job, then become Hot: a successful steal
    /// always re-heats, whatever the level was before. The job runs
    /// unprotected here; if it terminates abnormally, that propagates to the
    /// caller's thread.
    pub fn does(&mut self, job: J)
        ensures
            final(self).wf(),
            old(self).same_identity(*final(self)),
            final(self).load == Load::Hot,
            final(self).retries == old(self).retries,
    {
        job.perform();
        self.load = Load::Hot;
    }

    /// The wait the current activity level calls for: Hot proceeds at once,
    /// Warm yields cooperatively, Cold rests at least `cold_interval`
    /// milliseconds. The delay itself is the loop driver's to perform.
    pub fn wait(&self) -> (d: Directive<J>)
        ensures
            d == wait_of::<J>(self.load),
    {
        match self.load {
            Load::Hot => Directive::Proceed,
            Load::Warm => Directive::Yield,
            Load::Cold => Directive::Rest,
        }
    }

    /// One iteration of the worker loop: attempt a steal and decide what
    /// follows.
    ///
    /// A stolen job is handed back for the caller to execute, with the worker
    /// already Hot — so no wait follows it, and the worker stays Hot even if
    /// the job terminates abnormally and the caller contains that. The stop
    /// sentinel halts the loop with the activity untouched; the steal record
    /// shows that halting consumes exactly one really-stolen Stop. A fruitless
    /// attempt applies the activity transition for whichever failure occurred
    /// and reports the wait the new level calls for.
    pub fn attempt(&mut self) -> (d: Directive<J>)
        requires
            old(self).wf(),
        ensures
            final(self).wf(),
            final(self).id == old(self).id,
            final(self).options == old(self).options,
            final(self).stealer.queue() == old(self).stealer.queue(),
            match d {
                Directive::Execute(_) => {
                    &&& final(self).load == Load::Hot
                    &&& final(self).retries == old(self).retries
                    &&& final(self).taken() == old(self).taken().push(MessageTag::Work)
                },
                Directive::Halt => {
                    &&& final(self).load == old(self).load
                    &&& final(self).retries == old(self).retries
                    &&& final(self).taken() == old(self).taken().push(MessageTag::Stop)
                },
                _ => {
                    &&& final(self).taken() == old(self).taken()
                    &&& ((final(self).load, final(self).retries) == miss_step(
                        old(self).load,
                        old(self).retries,
                        old(self).options.retry_threshold,
                    ) || (final(self).load, final(self).retries) == idle_step(
                        old(self).load,
                        old(self).retries,
                        old(self).options.retry_threshold,
                    ))
                    &&& d == wait_of::<J>(final(self).load)
                },
            },
    {
        match steal_message(&mut self.stealer) {
            Steal::Data(Message::Work(job)) => {
                self.load = Load::Hot;
                Directive::Execute(job)
            },
            Steal::Data(Message::Stop) => Directive::Halt,
            Steal::Abort => {
                self.missed();
                self.wait()
            },
            Steal::Empty => {
                self.nothing();
                self.wait()
            },
        }
    }
}

/// The pool controller: sole owner of the queue's producer handle. It mints
/// workers with sequential ids, submits jobs, and requests shutdown; it never
/// starts a thread itself.
#[verifier::reject_recursive_types(J)]
pub struct Deque<J> {
    /// The id the next hired worker receives; monotonically increasing, never
    /// reused.
    pub next_id: usize,
    /// The pool's configuration.
    pub options: Options,
    /// The producer handle; exactly one exists for the lifetime of the pool.
    /// It carries the trusted record of every message pushed.
    pub sender: Producer<J>,
    /// A retained consumer handle, used only to mint new workers.
    pub stealer: Consumer<J>,
}

impl<J> Deque<J> {
    /// Every message this pool has pushed, in order.
    pub open spec fn pushed(self) -> Seq<MessageTag> {
        self.sender.pushed()
    }

    /// Well-formedness: the retained consumer handle reaches the same queue
    /// that the producer handle feeds, so hired workers steal what this pool
    /// pushes. Construction establishes this and every operation preserves
    /// it.
    pub open spec fn wf(self) -> bool {
        self.stealer.queue() == self.sender.queue()
    }
}

impl<J: Job> Deque<J> {
    /// Create a pool over a fresh, empty queue, keeping its producer handle
    /// and one consumer handle into the same queue, with the id counter at
    /// zero.
    pub fn new(options: Options) -> (pool: Deque<J>)
        ensures
            pool.wf(),
            pool.next_id == 0,
            pool.options == options,
            pool.pushed() == Seq::<MessageTag>::empty(),
    {
        let sender = new_queue();
        let stealer = queue_stealer(&sender);
        Deque { next_id: 0, options, sender, stealer }
    }

    /// Hire a worker: the next sequential id, initially Hot with zero retries,
    /// a copy of the configuration, and a freshly cloned consumer handle into
    /// this pool's queue. The caller runs its loop on a thread of its
    /// choosing; nothing is pushed.
    pub fn hire(&mut self) -> (w: DequeWorker<J>)
        requires
            old(self).next_id < usize::MAX,
        ensures
            w.id == old(self).next_id,
            w.load == Load::Hot,
            w.retries == 0,
            w.options == old(self).options,
            w.taken() == Seq::<MessageTag>::empty(),
            w.stealer.queue() == old(self).stealer.queue(),
            w.wf(),
            final(self).next_id == old(self).next_id + 1,
            final(self).options == old(self).options,
            final(self).sender == old(self).sender,
            final(self).stealer == old(self).stealer,
    {
        let id = self.next_id;
        self.next_id = self.next_id + 1;
        DequeWorker {
            id,
            load: Load::Hot,
            retries: 0,
            options: self.options,
            stealer: clone_stealer(&self.stealer),
        }
    }

    /// Submit one unit of work: convert it into a job and push it, wrapped as
    /// a Work message, onto the tail of the queue. Never blocks and always
    /// succeeds; nothing bounds an unconsumed backlog.
    pub fn give<F>(&mut self, f: F) where J: From<F>
        ensures
            final(self).pushed() == old(self).pushed().push(MessageTag::Work),
            final(self).sender.queue() == old(self).sender.queue(),
            final(self).next_id == old(self).next_id,
            final(self).options == old(self).options,
            final(self).stealer == old(self).stealer,
    {
        push_message(&mut self.sender, Message::Work(J::from(f)));
    }

    /// Request shutdown: push exactly `num_workers` Stop messages, one per
    /// configured worker, and return at once. This is a request, not a
    /// barrier: it neither drains the queue nor waits for any worker, and
    /// keeping the live-worker count equal to `num_workers` is the caller's
    /// charge.
    pub fn stop(&mut self)
        ensures
            final(self).pushed() == old(self).pushed() + Seq::new(
                old(self).options.num_workers as nat,
                |i: int| MessageTag::Stop,
            ),
            final(self).sender.queue() == old(self).sender.queue(),
            final(self).next_id == old(self).next_id,
            final(self).options == old(self).options,
            final(self).stealer == old(self).stealer,
    {
        let n = self.options.num_workers;
        let mut i: usize = 0;
        while i < n
            invariant
                i <= n,
                n == self.options.num_workers,
                self.pushed() == old(self).pushed() + Seq::new(i as nat, |j: int| MessageTag::Stop),
                self.sender.queue() == old(self).sender.queue(),
                self.next_id == old(self).next_id,
                self.options == old(self).options,
                self.stealer == old(self).stealer,
            decreases n - i,
        {
            push_message(&mut self.sender, Message::Stop);
            i = i + 1;
            proof {
                assert(self.pushed() =~= old(self).pushed() + Seq::new(
                    i as nat,
                    |j: int| MessageTag::Stop,
                ));
            }
        }
    }
}

} // verus!
