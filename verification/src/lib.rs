//! Write-once cells: containers that start empty, accept exactly one value,
//! and are read-only from then on.
//!
//! [`unsync::OnceCell`] is the plain cell. [`sync::OnceCell`] pairs the same
//! storage with a gate that records how far the single write has come, and
//! shows a value to readers only behind a completed gate. Both are described
//! by one model, an `Option<T>`, in [`slot`], where the laws that follow from
//! it are proved.
//!
//! Writing takes `&mut self`: an exclusive borrow then rules out two writers at
//! once, and every contract here is stated for a caller with exclusive access.
//! Sharing a cell between threads, with writes through `&self`, is left to a
//! wrapper around these types.
mod gate;
pub mod slot;
pub mod sync;
pub mod unsync;
