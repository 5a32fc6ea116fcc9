//! The two endpoints of a channel.
//!
//! An endpoint reaches the shared state through the channel's lock and
//! changes it by one method of [`Critical`], which says exactly what it does.
//! What an endpoint finds behind the lock is up to the other threads, so the
//! contracts here state what holds whatever it finds; the laws of whole runs
//! are in [`laws`](crate::laws).
//!
//! The lock is never held while a thread is woken, and no guard outlives the
//! function that took it.
use vstd::prelude::*;
use std::collections::VecDeque;
use std::sync::{Arc, Condvar, LockResult, Mutex, MutexGuard};
use crate::model::{oldest_first, lemma_pop_back};
use crate::state::Critical;
use crate::sync::{into_guard, lock, notify_one, share, state_mut, wait_while_idle};

verus! {

/// What the endpoints of one channel hold in common: the shared state behind
/// its lock, and the condition variable on which the consumer sleeps.
#[verifier::reject_recursive_types(T)]
pub struct Inner<T> {
    mu: Mutex<Critical<T>>,
    cond: Condvar,
}

/// A value that could not be delivered because the channel was closed.
pub struct SendErr<T>(pub T);

/// The producing endpoint. It can be duplicated, and every duplicate feeds
/// the same channel.
#[verifier::reject_recursive_types(T)]
pub struct Sender<T> {
    inner: Arc<Inner<T>>,
}

/// The consuming endpoint, of which a channel has one. It keeps a buffer of
/// its own, which it reads without the lock.
#[verifier::reject_recursive_types(T)]
pub struct Reciever<T> {
    inner: Arc<Inner<T>>,
    local_buf: VecDeque<T>,
}

/// The guard out of what a lock operation returned. A lock is poisoned when
/// a thread panicked while it held the guard. No function of this crate does,
/// but should it happen, it is the end of the channel: the guard is taken all
/// the same, and the state behind it is closed.
fn settle<'a, T>(r: LockResult<MutexGuard<'a, Critical<T>>>) -> (g: MutexGuard<'a, Critical<T>>)
    opens_invariants none
    no_unwind
{
    match r {
        Ok(g) => g,
        Err(e) => {
            let mut g = into_guard(e);
            state_mut(&mut g).close();
            g
        },
    }
}

/// Takes the lock.
fn acquire<'a, T>(mu: &'a Mutex<Critical<T>>) -> (g: MutexGuard<'a, Critical<T>>)
    opens_invariants none
    no_unwind
{
    settle(lock(mu))
}

impl<T> Sender<T> {
    /// The channel that this endpoint feeds.
    pub closed spec fn channel(&self) -> Inner<T> {
        *self.inner
    }

    /// Offers `val` to the channel and wakes the consumer if it was taken.
    /// A closed channel hands the value back as the error. These are the two
    /// outcomes; which of them it is, is for the state behind the lock to
    /// say, see [`Critical::push`].
    pub fn send(&self, val: T) -> (r: Result<(), T>)
        ensures
            r == Ok::<(), T>(()) || r == Err::<(), T>(val),
    {
        // The lock is released at the end of this block, before the consumer
        // is woken, so that the consumer does not wake up to a held lock.
        let r = {
            let mut guard = acquire(&self.inner.mu);
            let st = state_mut(&mut guard);
            st.push(val)
        };
        if r.is_ok() {
            notify_one(&self.inner.cond);
        }
        r
    }
}

impl<T> Clone for Sender<T> {
    /// One more producer for the same channel, counted under the lock.
    fn clone(&self) -> (r: Self)
        ensures
            r.channel() == self.channel(),
    {
        {
            let mut guard = acquire(&self.inner.mu);
            let st = state_mut(&mut guard);
            st.add_sender();
        }
        Sender { inner: share(&self.inner) }
    }
}

impl<T> Drop for Sender<T> {
    /// Takes this producer off the count and, if it was the last one of an
    /// open channel, wakes the consumer so that it sees the end.
    fn drop(&mut self)
        ensures
            final(self).channel() == old(self).channel(),
        opens_invariants none
        no_unwind
    {
        let wake = {
            let mut guard = acquire(&self.inner.mu);
            let st = state_mut(&mut guard);
            st.release_sender()
        };
        if wake {
            notify_one(&self.inner.cond);
        }
    }
}

impl<T> View for Reciever<T> {
    type V = Seq<T>;

    /// The values in the consumer's own buffer, oldest first.
    closed spec fn view(&self) -> Seq<T> {
        oldest_first(self.local_buf@)
    }
}

impl<T> Reciever<T> {
    /// The channel that this endpoint drains.
    pub closed spec fn channel(&self) -> Inner<T> {
        *self.inner
    }

    /// The next value. While the consumer's own buffer holds values, the
    /// oldest of them is returned and the lock is not touched. Otherwise the
    /// call sleeps until the shared queue holds a value or the channel is
    /// closed, then takes the oldest queued value and moves the rest of the
    /// queue into the buffer, see [`Critical::take`]. `None` is the end of the
    /// channel: it is closed and nothing is left in it.
    pub fn recv(&mut self) -> (r: Option<T>)
        ensures
            old(self)@.len() > 0 ==> r == Some(old(self)@.first()),
            old(self)@.len() > 0 ==> final(self)@ == old(self)@.drop_first(),
            r is None ==> old(self)@.len() == 0 && final(self)@.len() == 0,
            final(self).channel() == old(self).channel(),
    {
        proof {
            if self.local_buf@.len() > 0 {
                lemma_pop_back(self.local_buf@);
            }
        }
        if let Some(v) = self.local_buf.pop_back() {
            return Some(v);
        }
        let guard = acquire(&self.inner.mu);
        let mut guard = settle(wait_while_idle(&self.inner.cond, guard));
        let st = state_mut(&mut guard);
        st.take(&mut self.local_buf)
    }

    /// The number of values in the consumer's own buffer.
    pub fn buffered(&self) -> (n: usize)
        ensures
            n == self@.len(),
    {
        self.local_buf.len()
    }
}

impl<T> Drop for Reciever<T> {
    /// Closes the channel, so that producers learn that nobody listens, and
    /// empties the shared queue. The values that were queued go with the
    /// consumer, as those in its own buffer do, and they go after the lock is
    /// released.
    fn drop(&mut self)
        ensures
            final(self).channel() == old(self).channel(),
        opens_invariants none
        no_unwind
    {
        let _rest = {
            let mut guard = acquire(&self.inner.mu);
            let st = state_mut(&mut guard);
            st.shut()
        };
    }
}

/// A new channel without a bound on the number of values in flight: one
/// producer and the consumer, with nothing buffered.
pub fn unbounded<T>() -> (r: (Sender<T>, Reciever<T>))
    ensures
        r.0.channel() == r.1.channel(),
        r.1@ == Seq::<T>::empty(),
{
    let inner = Inner { mu: Mutex::new(Critical::new()), cond: Condvar::new() };
    let inner = Arc::new(inner);
    let rx = Reciever { inner: share(&inner), local_buf: VecDeque::new() };
    let tx = Sender { inner: share(&inner) };
    assert(rx@ =~= Seq::<T>::empty());
    (tx, rx)
}

} // verus!
