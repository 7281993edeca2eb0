//! The write-once cell with a gate.
use vstd::prelude::*;
use crate::gate::Gate;
use crate::slot::{after_write, read, vacant, write_outcome};

verus! {

/// A write-once cell with a gate. Readers go by its gate: the stored value
/// shows only once that is `Completed`.
pub struct OnceCell<T> {
    inner: Option<T>,
    once: Gate,
}

impl<T> View for OnceCell<T> {
    type V = Option<T>;

    /// What readers see: the stored value behind a `Completed` gate, nothing
    /// before.
    closed spec fn view(&self) -> Option<T> {
        if self.once is Completed {
            self.inner
        } else {
            None
        }
    }
}

impl<T> OnceCell<T> {
    /// Between calls no write is in flight, and `once` is `Completed` exactly
    /// when the slot holds a value.
    #[verifier::type_invariant]
    spec fn coupled(self) -> bool {
        &&& !(self.once is InProgress)
        &&& self.once is Completed <==> self.inner is Some
    }

    /// An empty cell with its gate `Uninitialized`.
    pub fn new() -> (cell: Self)
        ensures
            cell@ == vacant::<T>(),
    {
        Self { inner: None, once: Gate::new() }
    }

    /// The stored value, or `None` while `once` is not `Completed`. The slot
    /// is looked at only behind a completed gate.
    pub fn get(&self) -> (found: Option<&T>)
        ensures
            found == read(&self@),
    {
        if self.once.is_completed() {
            self.inner.as_ref()
        } else {
            None
        }
    }

    /// Stores `value` if the cell is empty. An occupied cell is left as it is
    /// and `value` comes back in the error.
    ///
    /// A completed gate answers at once. Otherwise the value is offered to
    /// `write_once`, and whether it is still in the caller's hands afterwards
    /// tells whether this call was the one that wrote.
    pub fn set(&mut self, value: T) -> (outcome: Result<(), T>)
        ensures
            final(self)@ == after_write(old(self)@, value),
            outcome == write_outcome(old(self)@, value),
    {
        proof {
            use_type_invariant(&*self);
        }
        if self.once.is_completed() {
            return Err(value);
        }
        let mut value = Some(value);
        write_once(&mut self.once, &mut self.inner, &mut value);
        match value {
            None => Ok(()),
            Some(value) => Err(value),
        }
    }
}

/// One pass through a cell's gate. The caller that wins it moves `pending`
/// into `slot` and completes `once`; behind a completed gate nothing moves.
fn write_once<T>(once: &mut Gate, slot: &mut Option<T>, pending: &mut Option<T>)
    requires
        !(*old(once) is InProgress),
        *old(once) is Uninitialized ==> *old(slot) is None,
    ensures
        *final(once) is Completed,
        *old(once) is Uninitialized ==> *final(slot) == *old(pending) && *final(pending) is None,
        *old(once) is Completed ==> *final(slot) == *old(slot) && *final(pending) == *old(pending),
    no_unwind
{
    if once.begin() {
        core::mem::swap(slot, pending);
        once.complete();
    }
}

} // verus!
