//! The standard library's mutex, condition variable and shared pointer, as
//! far as the channel uses them, and the one function on its queue that vstd
//! does not describe.
//!
//! Nothing in this module is proved. Each item names the function of `std`
//! that it stands for and says what is taken on trust about it. None of them
//! describes the value behind a lock: what the channel knows about its shared
//! state, it knows from the type of that state.
use vstd::prelude::*;
use std::collections::VecDeque;
use std::ops::DerefMut;
use std::sync::{Arc, Condvar, LockResult, Mutex, MutexGuard, PoisonError};
use crate::state::Critical;

verus! {

/// `std::sync::Mutex`, opaque.
#[verifier::external_type_specification]
#[verifier::external_body]
#[verifier::reject_recursive_types(T)]
pub struct ExMutex<T: ?Sized>(Mutex<T>);

/// `std::sync::MutexGuard`, opaque. The lock is held for as long as the guard
/// lives.
#[verifier::external_type_specification]
#[verifier::external_body]
#[verifier::reject_recursive_types(T)]
pub struct ExMutexGuard<'a, T: ?Sized + 'a>(MutexGuard<'a, T>);

/// `std::sync::PoisonError`, opaque: the error of a lock whose holder
/// panicked.
#[verifier::external_type_specification]
#[verifier::external_body]
#[verifier::reject_recursive_types(T)]
pub struct ExPoisonError<T>(PoisonError<T>);

/// `std::sync::Condvar`, opaque.
#[verifier::external_type_specification]
#[verifier::external_body]
pub struct ExCondvar(Condvar);

/// `Mutex::new`. Nothing is claimed of the mutex that comes back.
pub assume_specification<T>[ Mutex::<T>::new ](t: T) -> (m: Mutex<T>);

/// `Condvar::new`. Nothing is claimed of the condition variable that comes
/// back.
pub assume_specification[ Condvar::new ]() -> (c: Condvar);

/// `Mutex::lock`: blocks until the lock is free and hands back its guard, or
/// the error that holds the guard when an earlier holder panicked. Taken on
/// trust: the call does not unwind, which `std` grants as long as the calling
/// thread does not hold the lock already. No function of this crate keeps a
/// guard beyond its own body or locks twice.
#[verifier::external_body]
pub(crate) fn lock<'a, V>(mu: &'a Mutex<V>) -> (r: LockResult<MutexGuard<'a, V>>)
    opens_invariants none
    no_unwind
{
    mu.lock()
}

/// `PoisonError::into_inner`: the guard that a poisoned lock still handed
/// over. Taken on trust: the call does not unwind.
#[verifier::external_body]
pub(crate) fn into_guard<'a, V>(e: PoisonError<MutexGuard<'a, V>>) -> (g: MutexGuard<'a, V>)
    opens_invariants none
    no_unwind
{
    e.into_inner()
}

/// `DerefMut::deref_mut` of a `MutexGuard`: the value behind the lock.
/// Nothing is claimed of that value, which other threads have written. Taken
/// on trust: the call does not unwind.
#[verifier::external_body]
pub(crate) fn state_mut<'g, 'a, V>(g: &'g mut MutexGuard<'a, V>) -> (st: &'g mut V)
    opens_invariants none
    no_unwind
{
    g.deref_mut()
}

/// `Condvar::notify_one`: wakes one thread that sleeps on the condition
/// variable, if there is one. Taken on trust: the call does not unwind.
#[verifier::external_body]
pub(crate) fn notify_one(c: &Condvar)
    opens_invariants none
    no_unwind
{
    c.notify_one()
}

/// `Condvar::wait_while`, with [`Critical::must_wait`] as the condition. As
/// long as the state behind the lock says that the consumer must wait, the
/// call releases the lock and sleeps until a notification arrives; then it
/// hands the guard back. Should the lock turn out to be poisoned after a
/// sleep, the call hands back the error that holds the guard. `std` wants the
/// guard to be one of the mutex that this condition variable is always used
/// with, which here is the one that stands beside it in the channel. Nothing
/// is claimed of the state behind the guard that comes back.
#[verifier::external_body]
pub(crate) fn wait_while_idle<'a, T>(
    c: &Condvar,
    g: MutexGuard<'a, Critical<T>>,
) -> (r: LockResult<MutexGuard<'a, Critical<T>>>) {
    c.wait_while(g, |st| st.must_wait())
}

/// `std::mem::take` on a queue: puts the default value, which for a
/// `VecDeque` is the empty queue, in the place of `q` and hands back what was
/// there. Taken on trust, besides the two clauses: the call does not unwind.
/// It moves the queue as a whole and neither allocates nor touches a value in
/// it.
#[verifier::external_body]
pub(crate) fn take_queue<T>(q: &mut VecDeque<T>) -> (rest: VecDeque<T>)
    ensures
        final(q)@ == Seq::<T>::empty(),
        rest@ == old(q)@,
    opens_invariants none
    no_unwind
{
    std::mem::take(q)
}

/// `Arc::clone`: one more pointer to the same allocation. Taken on trust: the
/// two pointers are equal. To Verus a shared pointer is the value that it
/// points to, and both point to the same one.
#[verifier::external_body]
pub(crate) fn share<V>(a: &Arc<V>) -> (r: Arc<V>)
    ensures
        r == *a,
{
    Arc::clone(a)
}

} // verus!
