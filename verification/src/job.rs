//! Jobs and the queue's message envelope.

use vstd::prelude::*;

verus! {

/// One unit of work. Performing it consumes the job; its side effects and
/// duration are unconstrained by the crew.
pub trait Job: Sized {
    /// Run the unit of work to completion.
    fn perform(self);
}

/// The queue payload: either a job to perform, or the stop sentinel that ends
/// a worker's loop. Stop is ordinary queue content — the queue transports it
/// like any other message; only the consumer interprets it specially.
pub enum Message<J> {
    /// A job to perform.
    Work(J),
    /// End the loop of whichever worker steals this.
    Stop,
}

/// The ghost image of one queue message: which kind it was. Contracts record
/// queue traffic as sequences of these tags.
pub enum MessageTag {
    /// The message carried a job.
    Work,
    /// The message was the stop sentinel.
    Stop,
}

impl<J> Message<J> {
    /// The tag of this message: its ghost image in a record of queue traffic.
    pub open spec fn tag(self) -> MessageTag {
        match self {
            Message::Work(_) => MessageTag::Work,
            Message::Stop => MessageTag::Stop,
        }
    }
}

} // verus!
