//! What this library takes from `std::sync` on trust: the mutex that guards a
//! cell, and the guard that a successful lock hands out. Nothing here is
//! proved; each item says what it claims.

use vstd::prelude::*;
use std::ops::{Deref, DerefMut};
use std::sync::{Mutex, MutexGuard, PoisonError};

verus! {

/// `std::sync::Mutex`, carried as a value of which nothing is known: what it
/// guards can change behind a shared reference, so no contract speaks of it.
#[verifier::external_type_specification]
#[verifier::external_body]
#[verifier::reject_recursive_types(T)]
pub struct ExMutex<T: ?Sized>(Mutex<T>);

/// `std::sync::MutexGuard`, the proof of a held lock. The lock is released
/// when the guard is dropped.
#[verifier::external_type_specification]
#[verifier::external_body]
#[verifier::reject_recursive_types(T)]
pub struct ExMutexGuard<'a, T: ?Sized + 'a>(MutexGuard<'a, T>);

/// `std::sync::PoisonError`, which a lock returns once a thread has panicked
/// while holding it.
#[verifier::external_type_specification]
#[verifier::external_body]
#[verifier::reject_recursive_types(T)]
pub struct ExPoisonError<T>(PoisonError<T>);

/// `Mutex::new` returns a mutex around `t`. Nothing is claimed of the result.
pub assume_specification<T>[ Mutex::<T>::new ](t: T) -> (mutex: Mutex<T>)
;

/// `Mutex::lock` waits until the lock is free and returns its guard, or the
/// poison error once a holder of the lock has panicked. Which of the two
/// comes back, and what the guard then gives access to, depends on what other
/// threads have done, so nothing is claimed of the result. std leaves open
/// what the call does when the calling thread holds the lock already (it may
/// panic or never return). The library never gets there: a guard lives
/// inside one of its functions only, and while it lives that function asks
/// for no lock and runs no code of the caller, neither a `clone` nor a
/// destructor.
pub assume_specification<T: ?Sized>[ Mutex::<T>::lock ](mutex: &Mutex<T>) -> (locked: Result<
    MutexGuard<'_, T>,
    PoisonError<MutexGuard<'_, T>>,
>)
;

/// `MutexGuard::deref` lends the guarded value for reading. Nothing is
/// claimed of what is found there.
pub assume_specification<'a, 'b, T: ?Sized>[ <MutexGuard<'a, T> as Deref>::deref ](
    guard: &'b MutexGuard<'a, T>,
) -> (state: &'b T)
;

/// `MutexGuard::deref_mut` lends the guarded value for writing. Nothing is
/// claimed of what is found there.
pub assume_specification<'a, 'b, T: ?Sized>[ <MutexGuard<'a, T> as DerefMut>::deref_mut ](
    guard: &'b mut MutexGuard<'a, T>,
) -> (state: &'b mut T)
;

} // verus!
