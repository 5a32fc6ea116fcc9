//! The shared state of a channel as a mathematical value.
use vstd::prelude::*;

verus! {

/// What the endpoints of one channel share: the values in flight, the number
/// of producers that keep the channel open, and the closed flag.
pub struct Core<T> {
    /// The queued values, oldest first.
    pub queue: Seq<T>,
    /// The producer count.
    pub senders: nat,
    /// Whether the channel is closed. A closed channel takes no more values.
    pub done: bool,
}

impl<T> Core<T> {
    /// The state of a new channel: nothing queued, one producer, open.
    pub open spec fn fresh() -> Self {
        Core { queue: Seq::empty(), senders: 1, done: false }
    }

    /// An open channel has at least one producer.
    pub open spec fn wf(self) -> bool {
        !self.done ==> self.senders >= 1
    }

    /// Whether a value offered now is taken into the queue.
    pub open spec fn accepts(self) -> bool {
        !self.done
    }

    /// The state after a producer offers `v`: appended when the channel is
    /// open, unchanged when it is closed.
    pub open spec fn push(self, v: T) -> Self {
        if self.done {
            self
        } else {
            Core { queue: self.queue.push(v), ..self }
        }
    }

    /// The state after a producer has been duplicated.
    pub open spec fn add_sender(self) -> Self {
        Core { senders: self.senders + 1, ..self }
    }

    /// Whether the disposal of a producer now closes the channel, which is
    /// when the consumer has to be woken.
    pub open spec fn last_sender(self) -> bool {
        !self.done && self.senders <= 1
    }

    /// The state after a producer has been disposed of. A closed channel does
    /// no more bookkeeping; an open one counts down and closes at zero.
    pub open spec fn release_sender(self) -> Self {
        if self.done {
            self
        } else if self.senders <= 1 {
            Core { senders: 0, done: true, ..self }
        } else {
            Core { senders: (self.senders - 1) as nat, ..self }
        }
    }

    /// The state after the channel has been closed with its consumer still
    /// there: what is queued stays queued, for the consumer to take.
    pub open spec fn close(self) -> Self {
        Core { done: true, ..self }
    }

    /// The state after the consumer has been disposed of: closed, and with
    /// nothing queued, since nobody is left to take it.
    pub open spec fn shut(self) -> Self {
        Core { queue: Seq::empty(), done: true, ..self }
    }

    /// Whether a consumer that finds this state has to sleep: nothing is
    /// queued and the channel may still receive values.
    pub open spec fn must_wait(self) -> bool {
        self.queue.len() == 0 && !self.done
    }

    /// The value that the consumer takes from this state, if there is one.
    pub open spec fn head(self) -> Option<T> {
        if self.queue.len() > 0 {
            Some(self.queue.first())
        } else {
            None
        }
    }

    /// The shared state after the consumer, whose private buffer holds
    /// `local`, has taken the head: the rest of the queue goes to the consumer
    /// and the consumer's buffer takes its place. Nothing moves when the queue
    /// is empty.
    pub open spec fn take(self, local: Seq<T>) -> Self {
        if self.queue.len() > 0 {
            Core { queue: local, ..self }
        } else {
            self
        }
    }

    /// The consumer's private buffer after the same step.
    pub open spec fn taken(self, local: Seq<T>) -> Seq<T> {
        if self.queue.len() > 0 {
            self.queue.drop_first()
        } else {
            local
        }
    }
}

/// The contents of a buffer that is filled at the front and emptied at the
/// back, read in the order in which the values leave it.
pub open spec fn oldest_first<T>(buf: Seq<T>) -> Seq<T> {
    buf.reverse()
}

/// A value put in at the front is the last to leave.
pub proof fn lemma_push_front<T>(buf: Seq<T>, v: T)
    ensures
        oldest_first(seq![v] + buf) == oldest_first(buf).push(v),
{
    assert(oldest_first(seq![v] + buf) =~= oldest_first(buf).push(v));
}

/// The value at the back is the first to leave, and the rest keep their order.
pub proof fn lemma_pop_back<T>(buf: Seq<T>)
    requires
        buf.len() > 0,
    ensures
        oldest_first(buf).first() == buf.last(),
        oldest_first(buf.drop_last()) == oldest_first(buf).drop_first(),
{
    assert(oldest_first(buf.drop_last()) =~= oldest_first(buf).drop_first());
}

} // verus!
