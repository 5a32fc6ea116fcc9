//! The executable shared state, which a channel keeps behind its lock.
//!
//! Whoever holds the lock sees a [`Critical`] and changes it through the
//! methods below, and through nothing else. Each of them is proved to apply
//! one function of [`Core`] to the state, so that what a thread finds behind
//! the lock is always the result of such functions, whichever threads were
//! there before.
use vstd::prelude::*;
use std::collections::VecDeque;
use crate::model::{Core, oldest_first, lemma_push_front, lemma_pop_back};
use crate::sync::take_queue;

verus! {

/// The producer count and the closed flag. Every value of this type has at
/// least one producer while it is open, so that the count of an open channel
/// can always be taken down. The two stand apart from the queue because they
/// carry this invariant and the queue does not: the queue is handed to
/// functions of the standard library, which may unwind, and a value with an
/// invariant cannot be.
struct Gate {
    senders: usize,
    done: bool,
}

impl Gate {
    #[verifier::type_invariant]
    spec fn inv(self) -> bool {
        !self.done ==> self.senders >= 1
    }
}

/// The state that the endpoints of a channel share: the queue of values in
/// flight, the producer count and the closed flag. Its view is a [`Core`].
pub struct Critical<T> {
    buf: VecDeque<T>,
    gate: Gate,
}

impl<T> View for Critical<T> {
    type V = Core<T>;

    closed spec fn view(&self) -> Core<T> {
        Core {
            queue: oldest_first(self.buf@),
            senders: self.gate.senders as nat,
            done: self.gate.done,
        }
    }
}

impl<T> Critical<T> {
    /// The state of a new channel.
    pub fn new() -> (s: Self)
        ensures
            s@ == Core::<T>::fresh(),
            s@.wf(),
    {
        let s = Critical { buf: VecDeque::new(), gate: Gate { senders: 1, done: false } };
        assert(s@.queue =~= Seq::<T>::empty());
        s
    }

    /// Offers `val`. An open channel queues it behind the values already
    /// there; a closed one hands it back and stays as it is.
    pub fn push(&mut self, val: T) -> (r: Result<(), T>)
        ensures
            final(self)@ == old(self)@.push(val),
            final(self)@.wf(),
            old(self)@.accepts() ==> r == Ok::<(), T>(()),
            !old(self)@.accepts() ==> r == Err::<(), T>(val),
    {
        proof {
            use_type_invariant(&self.gate);
        }
        if self.gate.done {
            return Err(val);
        }
        proof {
            lemma_push_front(self.buf@, val);
        }
        self.buf.push_front(val);
        Ok(())
    }

    /// Counts one more producer. The count stays where it is once it has
    /// reached the largest value that it can hold.
    pub fn add_sender(&mut self)
        ensures
            old(self)@.senders < usize::MAX ==> final(self)@ == old(self)@.add_sender(),
            old(self)@.senders == usize::MAX ==> final(self)@ == old(self)@,
            final(self)@.wf(),
    {
        proof {
            use_type_invariant(&self.gate);
        }
        if self.gate.senders < usize::MAX {
            self.gate.senders = self.gate.senders + 1;
        }
    }

    /// Takes one producer off the count. Returns whether this closed the
    /// channel, in which case a sleeping consumer has to be woken.
    pub fn release_sender(&mut self) -> (wake: bool)
        ensures
            final(self)@ == old(self)@.release_sender(),
            wake == old(self)@.last_sender(),
            final(self)@.wf(),
        opens_invariants none
        no_unwind
    {
        proof {
            use_type_invariant(&self.gate);
        }
        if self.gate.done {
            return false;
        }
        if self.gate.senders == 1 {
            self.gate.done = true;
            self.gate.senders = 0;
            true
        } else {
            self.gate.senders = self.gate.senders - 1;
            false
        }
    }

    /// Closes the channel for good on behalf of the consumer that is being
    /// disposed of, and hands out what is queued, which nobody will take any
    /// more. The caller lets go of it once the lock is released, so that no
    /// value is dropped under the lock.
    pub fn shut(&mut self) -> (rest: VecDeque<T>)
        ensures
            final(self)@ == old(self)@.shut(),
            oldest_first(rest@) == old(self)@.queue,
            final(self)@.wf(),
        opens_invariants none
        no_unwind
    {
        self.gate.done = true;
        let rest = take_queue(&mut self.buf);
        assert(self@.queue =~= Seq::<T>::empty());
        rest
    }

    /// Closes the channel for good while the consumer is still there. What is
    /// queued stays queued.
    pub fn close(&mut self)
        ensures
            final(self)@ == old(self)@.close(),
            final(self)@.wf(),
        opens_invariants none
        no_unwind
    {
        self.gate.done = true;
    }

    /// Whether a consumer has to sleep on this state.
    pub fn must_wait(&self) -> (b: bool)
        ensures
            b == self@.must_wait(),
    {
        self.buf.len() == 0 && !self.gate.done
    }

    /// Takes the oldest queued value, if there is one, and exchanges what is
    /// left of the queue for the consumer's buffer `local`, so that the
    /// consumer can go through the rest without the lock. An empty queue
    /// changes nothing.
    pub fn take(&mut self, local: &mut VecDeque<T>) -> (r: Option<T>)
        ensures
            r == old(self)@.head(),
            final(self)@ == old(self)@.take(oldest_first(old(local)@)),
            oldest_first(final(local)@) == old(self)@.taken(oldest_first(old(local)@)),
            final(self)@.wf(),
    {
        proof {
            use_type_invariant(&self.gate);
            if self.buf@.len() > 0 {
                lemma_pop_back(self.buf@);
            }
        }
        match self.buf.pop_back() {
            Some(v) => {
                std::mem::swap(local, &mut self.buf);
                Some(v)
            },
            None => None,
        }
    }

    /// The number of queued values.
    pub fn len(&self) -> (n: usize)
        ensures
            n == self@.queue.len(),
    {
        self.buf.len()
    }

    /// Whether the channel is closed.
    pub fn is_closed(&self) -> (b: bool)
        ensures
            b == self@.done,
    {
        self.gate.done
    }

    /// The producer count.
    pub fn senders(&self) -> (n: usize)
        ensures
            n == self@.senders,
    {
        self.gate.senders
    }
}

} // verus!
