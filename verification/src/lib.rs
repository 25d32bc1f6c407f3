//! A work-stealing crew: a configurable set of worker threads cooperatively
//! drains a shared, lock-free queue of submitted jobs, with no central
//! dispatcher.
//!
//! The pool controller ([`Deque`]) owns the producer side of the queue; each
//! hired worker ([`DequeWorker`]) holds a cloned consumer handle and loops:
//! attempt a steal, react to the outcome, execute a stolen job, and apply a
//! backoff policy. The backoff is a self-tuning Hot/Warm/Cold activity ramp
//! ([`Load`]): busy workers spin freely, idle ones converge to sleeping, and a
//! contended steal ([`Steal::Abort`]) is read as a stronger "work is near"
//! signal than a genuinely empty queue.
//!
//! The queue backend is crossbeam's lock-free Chase-Lev deque, reached only
//! through the narrow trusted layer in [`backend`]. Everything a worker or the
//! controller decides — the activity transitions, the wait policy, what gets
//! pushed on submission and shutdown — is stated in contracts and verified.
//! The waiting itself (yield, sleep) and thread management belong to the
//! caller driving [`DequeWorker::attempt`].

pub mod activity;
pub mod backend;
pub mod deque;
pub mod job;

pub use activity::Failure;
pub use activity::Load;
pub use backend::Consumer;
pub use backend::Producer;
pub use backend::Steal;
pub use deque::Deque;
pub use deque::DequeWorker;
pub use deque::Directive;
pub use deque::Options;
pub use job::Job;
pub use job::Message;
pub use job::MessageTag;
