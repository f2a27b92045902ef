//! Runtime-checked borrow tracking.
//!
//! A [`ScopedReference`] hands out read-only [`ScopedBorrow`] handles and
//! read-write [`ScopedBorrowMut`] handles over a stored value, and tracks
//! them in a single liveness counter: `0` means no borrow is outstanding,
//! a positive count below the sentinel means that many shared borrows are
//! outstanding, and the sentinel `usize::MAX` means exactly one exclusive
//! borrow is outstanding. At most one writer, or any number of readers,
//! never both; the owner may only be taken apart once every borrow has
//! been released.
//!
//! The counter discipline itself is stated and proved in [`counter`]: each
//! owner operation is one step of that machine, and a step that the machine
//! refuses cannot be taken at all.

pub mod counter;
pub mod scoped;

pub use scoped::ScopedBorrow;
pub use scoped::ScopedBorrowMut;
pub use scoped::ScopedReference;
