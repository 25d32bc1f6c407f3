//! The trusted layer over the queue backend and the host.
//!
//! The queue is crossbeam's lock-free Chase-Lev deque, split into one producer
//! handle (push to the tail; never blocks) and any number of cloneable
//! consumer handles (steal from the head). Its internals are an outside
//! collaborator: everything here is believed on the strength of crossbeam's
//! own documentation and source, not verified.
//!
//! Each handle travels inside a wrapper — [`Producer`], [`Consumer`] — that
//! carries two ghost values: a record of the messages that really crossed the
//! handle, and the identity of the queue it reaches. Both are private to this
//! module and grow or transfer only through the trusted operations below, so
//! a contract over [`Producer::pushed`] or [`Consumer::taken`] speaks of
//! queue traffic itself, not of any caller's bookkeeping, and equality of
//! [`Producer::queue`] and [`Consumer::queue`] says that two handles really
//! meet. The outcome of a steal depends on concurrent activity in other
//! threads, so nothing is promised about which variant comes back — callers
//! must be correct for every outcome.

use vstd::prelude::*;

use crate::job::Message;
use crate::job::MessageTag;

verus! {

/// The producer handle of crossbeam's Chase-Lev deque, declared so that it
/// can stand in fields and signatures; its contents are opaque here.
#[verifier::external_type_specification]
#[verifier::external_body]
#[verifier::reject_recursive_types(T)]
pub struct ExDequeProducer<T>(crossbeam::deque::Worker<T>);

/// The consumer ("stealer") handle of crossbeam's Chase-Lev deque, declared
/// so that it can stand in fields and signatures; its contents are opaque
/// here.
#[verifier::external_type_specification]
#[verifier::external_body]
#[verifier::reject_recursive_types(T)]
pub struct ExDequeStealer<T>(crossbeam::deque::Stealer<T>);

/// The producer side of a shared queue, together with the ghost record of
/// every message pushed through it, in order, and the queue's ghost identity.
/// Only the trusted operations of this module touch the ghost parts.
#[verifier::reject_recursive_types(J)]
pub struct Producer<J> {
    handle: crossbeam::deque::Worker<Message<J>>,
    record: Ghost<Seq<MessageTag>>,
    queue: Ghost<int>,
}

impl<J> Producer<J> {
    /// Every message pushed through this handle, in order.
    pub closed spec fn pushed(self) -> Seq<MessageTag> {
        self.record@
    }

    /// The identity of the queue this handle feeds.
    pub closed spec fn queue(self) -> int {
        self.queue@
    }
}

/// A consumer handle into a shared queue, together with the ghost record of
/// every message this handle has stolen, in order, and the queue's ghost
/// identity. Only the trusted operations of this module touch the ghost
/// parts.
#[verifier::reject_recursive_types(J)]
pub struct Consumer<J> {
    handle: crossbeam::deque::Stealer<Message<J>>,
    record: Ghost<Seq<MessageTag>>,
    queue: Ghost<int>,
}

impl<J> Consumer<J> {
    /// Every message this handle has stolen, in order.
    pub closed spec fn taken(self) -> Seq<MessageTag> {
        self.record@
    }

    /// The identity of the queue this handle steals from.
    pub closed spec fn queue(self) -> int {
        self.queue@
    }
}

/// The three-way outcome of a steal attempt, as the queue backend reports it.
/// Abort is a positive signal that work exists; Empty is not.
pub enum Steal<J> {
    /// A message was obtained.
    Data(Message<J>),
    /// The queue held nothing at the time of the attempt.
    Empty,
    /// The attempt lost a race with a concurrent operation; the queue may
    /// still hold items.
    Abort,
}

/// Relies on crossbeam's `deque::Worker::new_fifo`: the producer handle of a
/// fresh FIFO deque, holding nothing yet, so its push record starts empty.
/// Which queue identity the fresh queue carries is left unsaid, so no two
/// pools can be proved to share one.
#[verifier::external_body]
pub(crate) fn new_queue<J>() -> (p: Producer<J>)
    ensures
        p.pushed() == Seq::<MessageTag>::empty(),
{
    Producer {
        handle: crossbeam::deque::Worker::new_fifo(),
        record: Ghost(Seq::empty()),
        queue: Ghost(0int),
    }
}

/// Relies on crossbeam's `deque::Worker::stealer`: a consumer handle into the
/// same queue as the given producer handle — in the source, the two share one
/// inner structure. The new handle has stolen nothing yet.
#[verifier::external_body]
pub(crate) fn queue_stealer<J>(p: &Producer<J>) -> (c: Consumer<J>)
    ensures
        c.queue() == p.queue(),
        c.taken() == Seq::<MessageTag>::empty(),
{
    Consumer { handle: p.handle.stealer(), record: Ghost(Seq::empty()), queue: p.queue }
}

/// Relies on crossbeam's `Stealer::clone`: another consumer handle into the
/// same queue — the clone shares the inner structure of its source. The new
/// handle's steal record starts empty: it counts what this handle steals, not
/// what its source did.
#[verifier::external_body]
pub(crate) fn clone_stealer<J>(c: &Consumer<J>) -> (r: Consumer<J>)
    ensures
        r.queue() == c.queue(),
        r.taken() == Seq::<MessageTag>::empty(),
{
    Consumer { handle: c.handle.clone(), record: Ghost(Seq::empty()), queue: c.queue }
}

/// Relies on crossbeam's `deque::Worker::push`: appends the message at the
/// tail of the queue; never blocks and always succeeds. The push record grows
/// by exactly the message's tag.
#[verifier::external_body]
pub(crate) fn push_message<J>(p: &mut Producer<J>, m: Message<J>)
    ensures
        final(p).pushed() == old(p).pushed().push(m.tag()),
        final(p).queue() == old(p).queue(),
{
    p.handle.push(m)
}

/// Relies on crossbeam's `Stealer::steal`: attempts to take one message from
/// the head of the queue. Success, emptiness and lost races depend on what
/// other threads do concurrently, so every outcome must be handled; a message
/// is recorded as stolen exactly when Data carries it out.
#[verifier::external_body]
pub(crate) fn steal_message<J>(c: &mut Consumer<J>) -> (r: Steal<J>)
    ensures
        final(c).queue() == old(c).queue(),
        match r {
            Steal::Data(m) => final(c).taken() == old(c).taken().push(m.tag()),
            Steal::Empty => final(c).taken() == old(c).taken(),
            Steal::Abort => final(c).taken() == old(c).taken(),
        },
{
    match c.handle.steal() {
        crossbeam::deque::Steal::Success(m) => Steal::Data(m),
        crossbeam::deque::Steal::Empty => Steal::Empty,
        crossbeam::deque::Steal::Retry => Steal::Abort,
    }
}

/// Relies on `num_cpus::get`, whose documentation promises that it always
/// returns at least 1: the host's logical core count.
#[verifier::external_body]
pub(crate) fn cpu_count() -> (n: usize)
    ensures
        n >= 1,
{
    num_cpus::get()
}

} // verus!
