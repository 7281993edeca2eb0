//! A three-state record of how far the single write of a synchronized cell
//! has come.
//!
//! A writer holds its cell exclusively, so it never meets a write in flight
//! that is not its own: `InProgress` is seen only between `begin` and
//! `complete` of one and the same call.
use vstd::prelude::*;

verus! {

/// How far the one write of a cell has come.
pub enum Gate {
    /// No write has started.
    Uninitialized,
    /// The winning writer has started and has not yet finished.
    InProgress,
    /// The write is done. Nothing leaves this state.
    Completed,
}

impl Gate {
    /// A gate that no writer has passed.
    pub fn new() -> (gate: Self)
        ensures
            gate is Uninitialized,
    {
        Gate::Uninitialized
    }

    /// Whether the write is done.
    pub fn is_completed(&self) -> (done: bool)
        ensures
            done == (self is Completed),
    {
        match self {
            Gate::Completed => true,
            _ => false,
        }
    }

    /// Asks for the right to write. The caller that finds this gate
    /// `Uninitialized` wins it, and it moves to `InProgress`; a `Completed`
    /// gate turns the caller away and stays `Completed`.
    pub fn begin(&mut self) -> (won: bool)
        requires
            !(*old(self) is InProgress),
        ensures
            won == (*old(self) is Uninitialized),
            won ==> *final(self) is InProgress,
            !won ==> *final(self) is Completed,
        no_unwind
    {
        match self {
            Gate::Uninitialized => {
                *self = Gate::InProgress;
                true
            },
            _ => false,
        }
    }

    /// Marks the write as done.
    pub fn complete(&mut self)
        requires
            *old(self) is InProgress,
        ensures
            *final(self) is Completed,
        no_unwind
    {
        *self = Gate::Completed;
    }
}

} // verus!
