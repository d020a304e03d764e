//! The slot that holds the most recent error.

use crate::error::ErrorValue;
use vstd::prelude::*;

verus! {

/// Storage for at most one pending error.
///
/// A slot belongs to one thread of execution: whoever owns the slot is the
/// only one who stores into it and takes from it. Storing replaces what was
/// there; taking empties the slot.
pub struct ErrorSlot<E> {
    pending: Option<ErrorValue<E>>,
}

impl<E> View for ErrorSlot<E> {
    type V = Option<ErrorValue<E>>;

    /// The pending error, if there is one.
    closed spec fn view(&self) -> Option<ErrorValue<E>> {
        self.pending
    }
}

/// What a slot holds after `error` was stored in a slot that held `pending`.
pub open spec fn after_store<E>(pending: Option<ErrorValue<E>>, error: ErrorValue<E>) -> Option<
    ErrorValue<E>,
> {
    Some(error)
}

/// What taking from a slot that holds `pending` hands out.
pub open spec fn taken<E>(pending: Option<ErrorValue<E>>) -> Option<ErrorValue<E>> {
    pending
}

/// What a slot holds after a take.
pub open spec fn after_take<E>(pending: Option<ErrorValue<E>>) -> Option<ErrorValue<E>> {
    None
}

impl<E> ErrorSlot<E> {
    /// An empty slot.
    pub fn new() -> (slot: Self)
        ensures
            slot@ is None,
    {
        ErrorSlot { pending: None }
    }

    /// Whether an error is pending.
    pub fn is_pending(&self) -> (pending: bool)
        ensures
            pending == (self@ is Some),
    {
        self.pending.is_some()
    }
}

/// Stores `error` as the most recent error of `slot`. An error that was
/// pending is dropped.
pub fn update_last_error<E>(slot: &mut ErrorSlot<E>, error: ErrorValue<E>)
    ensures
        final(slot)@ == after_store(old(slot)@, error),
{
    slot.pending = Some(error);
}

/// Takes the most recent error out of `slot`, which is empty afterwards.
pub fn get_last_error<E>(slot: &mut ErrorSlot<E>) -> (error: Option<ErrorValue<E>>)
    ensures
        error == taken(old(slot)@),
        final(slot)@ == after_take(old(slot)@),
{
    slot.pending.take()
}

/// An error that was stored is handed out by the next take, and by that take
/// alone: the take after it finds the slot empty.
pub proof fn lemma_take_drains<E>(pending: Option<ErrorValue<E>>, error: ErrorValue<E>)
    ensures
        taken(after_store(pending, error)) == Some(error),
        taken(after_take(after_store(pending, error))) is None,
{
}

/// Of two errors stored one after the other, a take hands out the second; the
/// first is gone.
pub proof fn lemma_store_replaces<E>(
    pending: Option<ErrorValue<E>>,
    first: ErrorValue<E>,
    second: ErrorValue<E>,
)
    ensures
        taken(after_store(after_store(pending, first), second)) == Some(second),
        after_take(after_store(after_store(pending, first), second)) is None,
{
}

} // verus!
