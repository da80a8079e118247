//! A one-shot settlement cell: it starts empty, is filled at most once with a
//! success or a failure value, and can be read from any thread.
//!
//! [`Outcome`] is what a cell holds, [`InternalPromise`] is the state kept
//! under the lock together with its write-once transitions, and [`Promise`]
//! is the shared handle. [`Resolver`] and [`Rejecter`] are the two one-shot
//! handles that the initializer of a [`Promise`] receives. What each of them
//! makes of the lock's answer is said by [`resolve_locked`],
//! [`reject_locked`], [`done_locked`] and [`peek_locked`].

pub mod internal;
pub mod outcome;
pub mod promise;
pub mod settlement;
pub mod sync;

pub use crate::internal::InternalPromise;
pub use crate::outcome::Outcome;
pub use crate::promise::{
    done_locked, peek_locked, reject_locked, resolve_locked, LockCorrupted, Promise, Rejecter,
    Resolver,
};
pub use crate::settlement::Settlement;
