//! The write-once cell without a gate.
use vstd::prelude::*;
use crate::slot::{after_write, read, vacant, write_outcome};

verus! {

/// A cell that is empty until its first `set` and never changes afterwards.
pub struct OnceCell<T> {
    inner: Option<T>,
}

impl<T> View for OnceCell<T> {
    type V = Option<T>;

    /// The value held, if one has been written.
    closed spec fn view(&self) -> Option<T> {
        self.inner
    }
}

impl<T> OnceCell<T> {
    /// An empty cell.
    pub fn new() -> (cell: Self)
        ensures
            cell@ == vacant::<T>(),
    {
        Self { inner: None }
    }

    /// The stored value, or `None` while the cell is empty.
    pub fn get(&self) -> (found: Option<&T>)
        ensures
            found == read(&self@),
    {
        self.inner.as_ref()
    }

    /// Stores `value` if the cell is empty. An occupied cell is left as it is
    /// and `value` comes back in the error.
    pub fn set(&mut self, value: T) -> (outcome: Result<(), T>)
        ensures
            final(self)@ == after_write(old(self)@, value),
            outcome == write_outcome(old(self)@, value),
    {
        if self.get().is_some() {
            return Err(value);
        }
        self.inner = Some(value);
        Ok(())
    }
}

} // verus!
