//! Whole runs of a channel: the state of all its parts together, the events
//! that its endpoints cause, and what a sequence of events leaves behind.
//!
//! The endpoints of a running channel live in different threads, and every
//! event takes place under the one lock or on the consumer's own buffer. A
//! run is therefore a sequence of events, in the order in which they took the
//! lock. Each event applies to the shared state the function of
//! [`Core`](crate::model::Core) that the executable operation is proved to
//! apply:
//!
//! | event | operation | on the shared state |
//! |---|---|---|
//! | `Send(v)` | `Sender::send` | `Critical::push` |
//! | `Recv` | `Reciever::recv` | its own buffer first, then `Critical::must_wait` and `Critical::take` |
//! | `Duplicate` | `Sender::clone` | `Critical::add_sender` |
//! | `DropProducer` | disposal of a `Sender` | `Critical::release_sender` |
//! | `DropConsumer` | disposal of the `Reciever` | `Critical::shut` |
//!
//! A poisoned lock is no event of a run: it takes a panic of a thread that
//! holds the lock, and under the lock only the proved methods of `Critical`
//! run.
use vstd::prelude::*;
use crate::model::Core;

verus! {

/// What an endpoint can do to its channel.
pub enum Event<T> {
    /// A producer offers a value.
    Send(T),
    /// The consumer asks for the next value.
    Recv,
    /// A producer is duplicated.
    Duplicate,
    /// A producer is disposed of.
    DropProducer,
    /// The consumer is disposed of.
    DropConsumer,
}

/// A channel with everything that belongs to it.
pub struct Channel<T> {
    /// The state behind the lock.
    pub core: Core<T>,
    /// The consumer's own buffer, oldest first.
    pub local: Seq<T>,
    /// The number of producers that exist.
    pub producers: nat,
    /// Whether the consumer exists.
    pub consumer: bool,
}

impl<T> Channel<T> {
    /// A channel as [`unbounded`](crate::channel::unbounded) makes it.
    pub open spec fn fresh() -> Self {
        Channel { core: Core::fresh(), local: Seq::empty(), producers: 1, consumer: true }
    }

    /// What holds of a channel at every moment of every run. An open channel
    /// has its consumer, and counts exactly the producers that exist. A closed
    /// channel whose consumer is still there has lost all its producers. A
    /// consumer that is gone has left nothing behind, neither in a buffer of
    /// its own nor in the shared queue.
    pub open spec fn inv(self) -> bool {
        &&& self.core.wf()
        &&& !self.core.done ==> self.consumer && self.core.senders == self.producers
        &&& self.core.done && self.consumer ==> self.producers == 0 && self.core.senders == 0
        &&& !self.consumer ==> self.local.len() == 0 && self.core.queue.len() == 0
    }

    /// The values that are in the channel, in the order in which the consumer
    /// will get them: its own buffer first, then the shared queue.
    pub open spec fn resident(self) -> Seq<T> {
        self.local + self.core.queue
    }

    /// Whether some endpoint exists that can cause `e`.
    pub open spec fn enabled(self, e: Event<T>) -> bool {
        match e {
            Event::Send(_) => self.producers >= 1,
            Event::Recv => self.consumer,
            Event::Duplicate => self.producers >= 1,
            Event::DropProducer => self.producers >= 1,
            Event::DropConsumer => self.consumer,
        }
    }

    /// Whether `e` is a request of the consumer that finds nothing to take and
    /// no end either, so that the consumer sleeps.
    pub open spec fn blocks(self, e: Event<T>) -> bool {
        e is Recv && self.local.len() == 0 && self.core.must_wait()
    }

    /// The value that the channel takes in at `e`, if it takes one in.
    pub open spec fn accepted(self, e: Event<T>) -> Option<T> {
        match e {
            Event::Send(v) => if self.core.accepts() {
                Some(v)
            } else {
                None
            },
            _ => None,
        }
    }

    /// The value that the consumer gets at `e`, if it gets one.
    pub open spec fn delivered(self, e: Event<T>) -> Option<T> {
        match e {
            Event::Recv => if self.local.len() > 0 {
                Some(self.local.first())
            } else {
                self.core.head()
            },
            _ => None,
        }
    }

    /// The channel after `e`.
    pub open spec fn step(self, e: Event<T>) -> Self {
        match e {
            Event::Send(v) => Channel { core: self.core.push(v), ..self },
            Event::Recv => if self.local.len() > 0 {
                Channel { local: self.local.drop_first(), ..self }
            } else if self.core.must_wait() {
                self
            } else {
                Channel {
                    core: self.core.take(self.local),
                    local: self.core.taken(self.local),
                    ..self
                }
            },
            Event::Duplicate => Channel {
                core: self.core.add_sender(),
                producers: self.producers + 1,
                ..self
            },
            Event::DropProducer => Channel {
                core: self.core.release_sender(),
                producers: (self.producers - 1) as nat,
                ..self
            },
            Event::DropConsumer => Channel {
                core: self.core.shut(),
                local: Seq::empty(),
                consumer: false,
                ..self
            },
        }
    }

    /// The channel after all of `events`, one after the other.
    pub open spec fn after(self, events: Seq<Event<T>>) -> Self
        decreases events.len(),
    {
        if events.len() == 0 {
            self
        } else {
            self.after(events.drop_last()).step(events.last())
        }
    }

    /// Whether `events` can happen one after the other: each of them finds an
    /// endpoint that can cause it.
    pub open spec fn admits(self, events: Seq<Event<T>>) -> bool
        decreases events.len(),
    {
        events.len() > 0 ==> self.admits(events.drop_last()) && self.after(
            events.drop_last(),
        ).enabled(events.last())
    }

    /// The values that the channel takes in during `events`, in that order.
    pub open spec fn sent(self, events: Seq<Event<T>>) -> Seq<T>
        decreases events.len(),
    {
        if events.len() == 0 {
            Seq::empty()
        } else {
            match self.after(events.drop_last()).accepted(events.last()) {
                Some(v) => self.sent(events.drop_last()).push(v),
                None => self.sent(events.drop_last()),
            }
        }
    }

    /// The values that the consumer gets during `events`, in that order.
    pub open spec fn received(self, events: Seq<Event<T>>) -> Seq<T>
        decreases events.len(),
    {
        if events.len() == 0 {
            Seq::empty()
        } else {
            match self.after(events.drop_last()).delivered(events.last()) {
                Some(v) => self.received(events.drop_last()).push(v),
                None => self.received(events.drop_last()),
            }
        }
    }
}

/// The values that producers offer during `events`, taken in or not.
pub open spec fn offered<T>(events: Seq<Event<T>>) -> Seq<T>
    decreases events.len(),
{
    if events.len() == 0 {
        Seq::empty()
    } else {
        match events.last() {
            Event::Send(v) => offered(events.drop_last()).push(v),
            _ => offered(events.drop_last()),
        }
    }
}

/// Whether the consumer does nothing during `events`: it neither asks for a
/// value nor goes away.
pub open spec fn producers_only<T>(events: Seq<Event<T>>) -> bool {
    forall|i: int| 0 <= i < events.len() ==> !(#[trigger] events[i] is Recv) && !(events[i] is DropConsumer)
}

/// `n` requests of the consumer in a row.
pub open spec fn requests<T>(n: nat) -> Seq<Event<T>> {
    Seq::new(n, |i: int| Event::Recv)
}

} // verus!
