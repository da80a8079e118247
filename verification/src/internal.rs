//! The state that a promise keeps under its lock.

use vstd::prelude::*;
use crate::outcome::Outcome;

verus! {

/// The content of one settlement cell. Every change goes through
/// [`InternalPromise::resolve`] or [`InternalPromise::reject`], and both
/// write only while the cell is pending.
pub struct InternalPromise<T, E> {
    outcome: Outcome<T, E>,
}

impl<T, E> View for InternalPromise<T, E> {
    type V = Outcome<T, E>;

    closed spec fn view(&self) -> Outcome<T, E> {
        self.outcome
    }
}

impl<T, E> InternalPromise<T, E> {
    /// A cell that holds nothing yet.
    pub fn new() -> (cell: Self)
        ensures
            cell@ == Outcome::<T, E>::Pending,
    {
        Self { outcome: Outcome::Pending }
    }

    /// Whether the cell has been settled.
    pub fn is_done(&self) -> (done: bool)
        ensures
            done == self@.settled(),
    {
        self.outcome.is_settled()
    }

    /// Settles a pending cell with the success `value`. A settled cell stays
    /// as it is, and so does a pending one when `value` is absent.
    pub fn resolve(&mut self, value: Option<T>)
        ensures
            final(self)@ == old(self)@.resolved_with(value),
    {
        let _unused = self.resolve_or_return(value);
    }

    /// Settles a pending cell with the failure `reason`. A settled cell stays
    /// as it is, and so does a pending one when `reason` is absent.
    pub fn reject(&mut self, reason: Option<E>)
        ensures
            final(self)@ == old(self)@.rejected_with(reason),
    {
        let _unused = self.reject_or_return(reason);
    }

    /// Does what [`InternalPromise::resolve`] does, and hands back the value
    /// that a settled cell did not take, so that the caller decides where it
    /// is dropped.
    pub fn resolve_or_return(&mut self, value: Option<T>) -> (unused: Option<T>)
        ensures
            final(self)@ == old(self)@.resolved_with(value),
            unused == (if old(self)@.settled() {
                value
            } else {
                None::<T>
            }),
    {
        if self.outcome.is_settled() {
            value
        } else {
            if let Some(v) = value {
                self.outcome = Outcome::Resolved(v);
            }
            None
        }
    }

    /// Does what [`InternalPromise::reject`] does, and hands back the reason
    /// that a settled cell did not take, so that the caller decides where it
    /// is dropped.
    pub fn reject_or_return(&mut self, reason: Option<E>) -> (unused: Option<E>)
        ensures
            final(self)@ == old(self)@.rejected_with(reason),
            unused == (if old(self)@.settled() {
                reason
            } else {
                None::<E>
            }),
    {
        if self.outcome.is_settled() {
            reason
        } else {
            if let Some(e) = reason {
                self.outcome = Outcome::Rejected(e);
            }
            None
        }
    }
}

impl<T: Copy, E: Copy> InternalPromise<T, E> {
    /// A copy of the current content. The values are plain copies: no code
    /// of theirs runs.
    pub fn peek(&self) -> (copy: Outcome<T, E>)
        ensures
            copy == self@,
    {
        self.outcome
    }
}

} // verus!
