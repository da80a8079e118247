//! The shared handle on a settlement cell, and the two one-shot handles that
//! settle it.

use vstd::prelude::*;
use std::ops::DerefMut;
use std::sync::{Arc, Mutex, MutexGuard, PoisonError};
use crate::internal::InternalPromise;
use crate::outcome::Outcome;

verus! {

/// The cell's lock is poisoned: a thread panicked while it held the lock, so
/// the content cannot be trusted any more.
#[derive(Debug, Clone, Copy, PartialEq, Eq)]
pub struct LockCorrupted;

/// A handle on a settlement cell, for reading.
#[verifier::reject_recursive_types(T)]
#[verifier::reject_recursive_types(E)]
pub struct Promise<T, E> {
    internal: Arc<Mutex<InternalPromise<T, E>>>,
}

/// The one-shot handle that settles a cell with a success value.
#[verifier::reject_recursive_types(T)]
#[verifier::reject_recursive_types(E)]
pub struct Resolver<T, E> {
    internal: Arc<Mutex<InternalPromise<T, E>>>,
}

/// The one-shot handle that settles a cell with a failure value.
#[verifier::reject_recursive_types(T)]
#[verifier::reject_recursive_types(E)]
pub struct Rejecter<T, E> {
    internal: Arc<Mutex<InternalPromise<T, E>>>,
}

/// What a resolver makes of the answer of its cell's lock. With the guard it
/// settles the content found, as [`InternalPromise::resolve_or_return`] says,
/// and lets the lock go; with the poison error it fails and touches nothing.
/// Beside the report stands the value that the cell did not take: `value`
/// itself after a failed lock, `value` or nothing after a successful one.
pub fn resolve_locked<'a, T: 'static + Send, E: 'static + Send>(
    locked: Result<
        MutexGuard<'a, InternalPromise<T, E>>,
        PoisonError<MutexGuard<'a, InternalPromise<T, E>>>,
    >,
    value: Option<T>,
) -> (out: (Result<(), LockCorrupted>, Option<T>))
    ensures
        out.0 is Err <==> locked is Err,
        locked is Err ==> out == (Err::<(), LockCorrupted>(LockCorrupted), value),
        locked is Ok ==> out.0 == Ok::<(), LockCorrupted>(()),
        locked is Ok ==> out.1 == value || out.1 is None,
{
    match locked {
        Ok(mut guard) => {
            let unused = guard.deref_mut().resolve_or_return(value);
            (Ok(()), unused)
        },
        Err(_) => (Err(LockCorrupted), value),
    }
}

/// What a rejecter makes of the answer of its cell's lock. With the guard it
/// settles the content found, as [`InternalPromise::reject_or_return`] says,
/// and lets the lock go; with the poison error it fails and touches nothing.
/// Beside the report stands the reason that the cell did not take: `reason`
/// itself after a failed lock, `reason` or nothing after a successful one.
pub fn reject_locked<'a, T: 'static + Send, E: 'static + Send>(
    locked: Result<
        MutexGuard<'a, InternalPromise<T, E>>,
        PoisonError<MutexGuard<'a, InternalPromise<T, E>>>,
    >,
    reason: Option<E>,
) -> (out: (Result<(), LockCorrupted>, Option<E>))
    ensures
        out.0 is Err <==> locked is Err,
        locked is Err ==> out == (Err::<(), LockCorrupted>(LockCorrupted), reason),
        locked is Ok ==> out.0 == Ok::<(), LockCorrupted>(()),
        locked is Ok ==> out.1 == reason || out.1 is None,
{
    match locked {
        Ok(mut guard) => {
            let unused = guard.deref_mut().reject_or_return(reason);
            (Ok(()), unused)
        },
        Err(_) => (Err(LockCorrupted), reason),
    }
}

/// What `is_done` makes of the answer of the cell's lock: with the guard,
/// whether the content found is settled, as [`InternalPromise::is_done`]
/// says; with the poison error, the failure.
pub fn done_locked<'a, T: 'static + Send, E: 'static + Send>(
    locked: Result<
        MutexGuard<'a, InternalPromise<T, E>>,
        PoisonError<MutexGuard<'a, InternalPromise<T, E>>>,
    >,
) -> (done: Result<bool, LockCorrupted>)
    ensures
        done is Err <==> locked is Err,
        locked is Err ==> done == Err::<bool, LockCorrupted>(LockCorrupted),
        done matches Ok(b) ==> exists|state: InternalPromise<T, E>| b == state@.settled(),
{
    match locked {
        Ok(guard) => {
            let b = guard.is_done();
            Ok(b)
        },
        Err(_) => Err(LockCorrupted),
    }
}

/// What `peek` makes of the answer of the cell's lock: with the guard, a copy
/// of the content found, as [`InternalPromise::peek`] says; with the poison
/// error, the failure.
pub fn peek_locked<'a, T: 'static + Send + Copy, E: 'static + Send + Copy>(
    locked: Result<
        MutexGuard<'a, InternalPromise<T, E>>,
        PoisonError<MutexGuard<'a, InternalPromise<T, E>>>,
    >,
) -> (copy: Result<Outcome<T, E>, LockCorrupted>)
    ensures
        copy is Err <==> locked is Err,
        locked is Err ==> copy == Err::<Outcome<T, E>, LockCorrupted>(LockCorrupted),
        copy matches Ok(found) ==> exists|state: InternalPromise<T, E>| found == state@,
{
    match locked {
        Ok(guard) => {
            let found = guard.peek();
            Ok(found)
        },
        Err(_) => Err(LockCorrupted),
    }
}

impl<T: 'static + Send, E: 'static + Send> Resolver<T, E> {
    /// This handle settles the cell that `promise` reads.
    pub closed spec fn settles(self, promise: Promise<T, E>) -> bool {
        self.internal == promise.internal
    }

    /// Takes the lock and does with its answer what [`resolve_locked`] says:
    /// settles the cell with `value` if it is still pending, or fails and
    /// leaves the cell alone when the lock is poisoned. A value that the cell
    /// does not take is dropped after the lock is released.
    pub fn resolve(self, value: Option<T>) -> (done: Result<(), LockCorrupted>) {
        resolve_locked(self.internal.lock(), value).0
    }
}

impl<T: 'static + Send, E: 'static + Send> Rejecter<T, E> {
    /// This handle settles the cell that `promise` reads.
    pub closed spec fn settles(self, promise: Promise<T, E>) -> bool {
        self.internal == promise.internal
    }

    /// Takes the lock and does with its answer what [`reject_locked`] says:
    /// settles the cell with `reason` if it is still pending, or fails and
    /// leaves the cell alone when the lock is poisoned. A reason that the
    /// cell does not take is dropped after the lock is released.
    pub fn reject(self, reason: Option<E>) -> (done: Result<(), LockCorrupted>) {
        reject_locked(self.internal.lock(), reason).0
    }
}

impl<T: 'static + Send, E: 'static + Send> Promise<T, E> {
    /// Makes a pending cell, hands `executor` the two handles that settle it,
    /// and returns the handle that reads it. `executor` has run, once, by the
    /// time this returns; whether the cell is settled by then is up to
    /// `executor`, which may keep the handles for later or pass them to
    /// another thread.
    pub fn new<F>(executor: F) -> (promise: Self) where F: FnOnce(Resolver<T, E>, Rejecter<T, E>)
        requires
            forall|resolver: Resolver<T, E>, rejecter: Rejecter<T, E>|
                call_requires(executor, (resolver, rejecter)),
        ensures
            exists|resolver: Resolver<T, E>, rejecter: Rejecter<T, E>|
                resolver.settles(promise) && rejecter.settles(promise) && call_ensures(
                    executor,
                    (resolver, rejecter),
                    (),
                ),
    {
        let internal = Arc::new(Mutex::new(InternalPromise::new()));
        let resolver = Resolver { internal: Arc::clone(&internal) };
        let rejecter = Rejecter { internal: Arc::clone(&internal) };
        let ghost handles = (resolver, rejecter);

        executor(resolver, rejecter);

        let promise = Self { internal };
        assert(handles.0.settles(promise) && handles.1.settles(promise) && call_ensures(
            executor,
            handles,
            (),
        ));
        promise
    }

    /// Takes the lock and does with its answer what [`done_locked`] says:
    /// tells whether the content found is settled, or fails when the lock is
    /// poisoned. The content found is that of the moment: another thread may
    /// settle the cell right after.
    pub fn is_done(&self) -> (done: Result<bool, LockCorrupted>)
        ensures
            done matches Ok(b) ==> exists|state: InternalPromise<T, E>| b == state@.settled(),
    {
        done_locked(self.internal.lock())
    }
}

impl<T: 'static + Send + Copy, E: 'static + Send + Copy> Promise<T, E> {
    /// Takes the lock and does with its answer what [`peek_locked`] says:
    /// returns a copy of the content found, or fails when the lock is
    /// poisoned. Does not wait for settlement. The values are plain copies,
    /// so no code of theirs runs while the lock is held.
    pub fn peek(&self) -> (copy: Result<Outcome<T, E>, LockCorrupted>)
        ensures
            copy matches Ok(found) ==> exists|state: InternalPromise<T, E>| found == state@,
    {
        peek_locked(self.internal.lock())
    }
}

} // verus!
