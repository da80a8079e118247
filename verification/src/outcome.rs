//! The three shapes of a settlement cell's content, and the write-once rule
//! as a function on them.

use vstd::prelude::*;

verus! {

/// What a settlement cell holds: nothing yet, a success value, or a failure
/// value.
#[derive(Debug, PartialEq, Eq)]
pub enum Outcome<T, E> {
    /// No value yet.
    Pending,
    /// Settled with a success value.
    Resolved(T),
    /// Settled with a failure value.
    Rejected(E),
}

impl<T, E> Outcome<T, E> {
    /// The cell has left `Pending`.
    pub open spec fn settled(self) -> bool {
        !(self is Pending)
    }

    /// The content after a call of the resolver with `value`: a pending cell
    /// takes a value that is present; anything else leaves the content as it
    /// was.
    pub open spec fn resolved_with(self, value: Option<T>) -> Self {
        match (self, value) {
            (Outcome::Pending, Some(v)) => Outcome::Resolved(v),
            _ => self,
        }
    }

    /// The content after a call of the rejecter with `reason`: a pending cell
    /// takes a reason that is present; anything else leaves the content as it
    /// was.
    pub open spec fn rejected_with(self, reason: Option<E>) -> Self {
        match (self, reason) {
            (Outcome::Pending, Some(e)) => Outcome::Rejected(e),
            _ => self,
        }
    }

    /// The same content in the shape of an optional result: `None` while
    /// pending, `Ok` for a success and `Err` for a failure.
    pub open spec fn as_result(self) -> Option<Result<T, E>> {
        match self {
            Outcome::Pending => None,
            Outcome::Resolved(v) => Some(Ok(v)),
            Outcome::Rejected(e) => Some(Err(e)),
        }
    }

    /// Whether the cell has left `Pending`.
    pub fn is_settled(&self) -> (b: bool)
        ensures
            b == self.settled(),
    {
        match self {
            Outcome::Pending => false,
            _ => true,
        }
    }

    /// Turns the content into an optional result.
    pub fn into_result(self) -> (r: Option<Result<T, E>>)
        ensures
            r == self.as_result(),
    {
        match self {
            Outcome::Pending => None,
            Outcome::Resolved(v) => Some(Ok(v)),
            Outcome::Rejected(e) => Some(Err(e)),
        }
    }
}

impl<T: Clone, E: Clone> Outcome<T, E> {
    /// `self` is what copying `source` may give: the same shape, holding a
    /// clone of the value that `source` holds.
    pub open spec fn copy_of(self, source: Self) -> bool {
        match (source, self) {
            (Outcome::Pending, Outcome::Pending) => true,
            (Outcome::Resolved(a), Outcome::Resolved(b)) => cloned(a, b),
            (Outcome::Rejected(a), Outcome::Rejected(b)) => cloned(a, b),
            _ => false,
        }
    }
}

impl<T: Copy, E: Copy> Copy for Outcome<T, E> {

}

impl<T: Clone, E: Clone> Clone for Outcome<T, E> {
    fn clone(&self) -> (copy: Self)
        ensures
            copy.copy_of(*self),
    {
        match self {
            Outcome::Pending => Outcome::Pending,
            Outcome::Resolved(v) => Outcome::Resolved(v.clone()),
            Outcome::Rejected(e) => Outcome::Rejected(e.clone()),
        }
    }
}

} // verus!
