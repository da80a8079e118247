//! Sequences of calls on one cell, and what the write-once rule makes of
//! them.

use vstd::prelude::*;
use crate::outcome::Outcome;

verus! {

/// One call on a cell: of its resolver with an optional value, or of its
/// rejecter with an optional reason.
pub enum Settlement<T, E> {
    Resolve(Option<T>),
    Reject(Option<E>),
}

impl<T, E> Settlement<T, E> {
    /// The call brings a value or a reason, so it settles a pending cell.
    pub open spec fn carries_value(self) -> bool {
        match self {
            Settlement::Resolve(value) => value is Some,
            Settlement::Reject(reason) => reason is Some,
        }
    }
}

impl<T, E> Outcome<T, E> {
    /// The content after one call.
    pub open spec fn after(self, call: Settlement<T, E>) -> Self {
        match call {
            Settlement::Resolve(value) => self.resolved_with(value),
            Settlement::Reject(reason) => self.rejected_with(reason),
        }
    }

    /// The content after the calls of `calls`, made one after the other.
    pub open spec fn after_all(self, calls: Seq<Settlement<T, E>>) -> Self
        decreases calls.len(),
    {
        if calls.len() == 0 {
            self
        } else {
            self.after(calls.first()).after_all(calls.drop_first())
        }
    }
}

/// A call changes the content only if the cell is pending and the call
/// carries a value, and then the cell is settled.
pub proof fn lemma_call_settles_or_keeps<T, E>(before: Outcome<T, E>, call: Settlement<T, E>)
    ensures
        before is Pending && call.carries_value() ==> before.after(call).settled(),
        !(before is Pending && call.carries_value()) ==> before.after(call) == before,
{
}

/// Settlement is final: whatever calls follow, a settled cell keeps its
/// content.
pub proof fn lemma_settled_is_final<T, E>(settled: Outcome<T, E>, calls: Seq<Settlement<T, E>>)
    requires
        settled.settled(),
    ensures
        settled.after_all(calls) == settled,
    decreases calls.len(),
{
    if calls.len() > 0 {
        lemma_settled_is_final(settled, calls.drop_first());
    }
}

/// Calls that carry no value leave a pending cell pending; so does no call
/// at all.
pub proof fn lemma_pending_without_value<T, E>(calls: Seq<Settlement<T, E>>)
    requires
        forall|i: int| 0 <= i < calls.len() ==> !(#[trigger] calls[i]).carries_value(),
    ensures
        Outcome::<T, E>::Pending.after_all(calls) == Outcome::<T, E>::Pending,
    decreases calls.len(),
{
    if calls.len() > 0 {
        let rest = calls.drop_first();
        assert forall|i: int| 0 <= i < rest.len() implies !(#[trigger] rest[i]).carries_value() by {
            assert(rest[i] == calls[i + 1]);
        }
        lemma_pending_without_value(rest);
    }
}

/// The first call wins: of all the calls made on a cell that starts pending,
/// the first that carries a value decides the content, and none before or
/// after it counts.
pub proof fn lemma_first_value_wins<T, E>(calls: Seq<Settlement<T, E>>, first: int)
    requires
        0 <= first < calls.len(),
        calls[first].carries_value(),
        forall|i: int| 0 <= i < first ==> !(#[trigger] calls[i]).carries_value(),
    ensures
        Outcome::<T, E>::Pending.after_all(calls) == Outcome::<T, E>::Pending.after(calls[first]),
    decreases calls.len(),
{
    let pending = Outcome::<T, E>::Pending;
    let rest = calls.drop_first();
    if first == 0 {
        lemma_settled_is_final(pending.after(calls[0]), rest);
    } else {
        assert(!calls[0].carries_value());
        assert forall|i: int| 0 <= i < first - 1 implies !(#[trigger] rest[i]).carries_value() by {
            assert(rest[i] == calls[i + 1]);
        }
        assert(rest[first - 1] == calls[first]);
        lemma_first_value_wins(rest, first - 1);
    }
}

/// Calls made in two rounds give what the second round makes of the first
/// round's content.
pub proof fn lemma_after_all_concat<T, E>(
    start: Outcome<T, E>,
    earlier: Seq<Settlement<T, E>>,
    later: Seq<Settlement<T, E>>,
)
    ensures
        start.after_all(earlier + later) == start.after_all(earlier).after_all(later),
    decreases earlier.len(),
{
    if earlier.len() == 0 {
        assert(earlier + later == later);
    } else {
        assert((earlier + later).first() == earlier.first());
        assert((earlier + later).drop_first() == earlier.drop_first() + later);
        lemma_after_all_concat(start.after(earlier.first()), earlier.drop_first(), later);
    }
}

/// A success that is followed by a failure stays a success.
pub proof fn lemma_resolve_then_reject<T, E>(value: T, reason: Option<E>)
    ensures
        Outcome::<T, E>::Pending.resolved_with(Some(value)).rejected_with(reason)
            == Outcome::<T, E>::Resolved(value),
{
}

/// A failure that is followed by a success stays a failure.
pub proof fn lemma_reject_then_resolve<T, E>(reason: E, value: Option<T>)
    ensures
        Outcome::<T, E>::Pending.rejected_with(Some(reason)).resolved_with(value)
            == Outcome::<T, E>::Rejected(reason),
{
}

} // verus!
