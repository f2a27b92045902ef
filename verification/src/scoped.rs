//! The owner and the two borrow handles.
//!
//! A [`ScopedReference`] owns a value of a copyable type and the liveness
//! counter that tracks every borrow taken from it. A [`ScopedBorrow`] is a
//! read-only handle carrying its own copy of the value; any number may be
//! outstanding at once, and the counter discipline guarantees that the
//! owner's value cannot change while they are. A [`ScopedBorrowMut`] is a
//! read-write handle that checks the value out; releasing it writes the
//! value back, so the next borrow reads the last write.
//!
//! Every operation here is one step of the machine in [`crate::counter`]:
//! its precondition is exactly that the step is not refused, so a state in
//! which the discipline would be violated cannot be reached at all. The
//! executable guards ([`ScopedReference::can_borrow`],
//! [`ScopedReference::can_borrow_mut`],
//! [`ScopedReference::has_outstanding_borrows`]) decide those
//! preconditions at run time for callers outside verified code.

use vstd::prelude::*;

use crate::counter;
use crate::counter::CounterOp;

verus! {

/// Owns a value and issues runtime-tracked borrows of it.
///
/// The owner records whether it was built over a shared or an exclusive
/// reference to the value ([`Self::new`] against [`Self::new_mut`]). An
/// exclusive borrow is granted either way: the caller who builds a shared
/// owner and then borrows exclusively must itself hold genuine exclusive
/// access to the data.
pub struct ScopedReference<T> {
    stored: T,
    shared_origin: bool,
    alive: usize,
}

/// A read-only borrow handle; any number may be outstanding at once.
pub struct ScopedBorrow<T> {
    stored: T,
}

/// A read-write borrow handle; at most one may be outstanding, and never
/// beside a shared one.
pub struct ScopedBorrowMut<T> {
    stored: T,
}

impl<T> ScopedReference<T> {
    /// The liveness counter: `0` when no borrow is outstanding, a shared
    /// count otherwise, the sentinel while the exclusive borrow is out.
    pub closed spec fn counter(self) -> usize {
        self.alive
    }

    /// The value the owner stands for. While the exclusive borrow is
    /// outstanding this is the value as of the check-out; releasing the
    /// exclusive handle writes its last value back here.
    pub closed spec fn value(self) -> T {
        self.stored
    }

    /// Whether the owner was built over a shared reference.
    pub closed spec fn is_shared_origin(self) -> bool {
        self.shared_origin
    }

    /// Builds an owner over a value held by shared reference. The counter
    /// starts free. Never fails.
    pub fn new(value: T) -> (owner: Self)
        ensures
            owner.counter() == 0,
            owner.value() == value,
            owner.is_shared_origin(),
    {
        ScopedReference { stored: value, shared_origin: true, alive: 0 }
    }

    /// Builds an owner over a value held by exclusive reference. The
    /// counter starts free. Never fails.
    pub fn new_mut(value: T) -> (owner: Self)
        ensures
            owner.counter() == 0,
            owner.value() == value,
            !owner.is_shared_origin(),
    {
        ScopedReference { stored: value, shared_origin: false, alive: 0 }
    }

    /// Takes the owner apart and hands the value back. Permitted only
    /// once no borrow is outstanding: tearing the owner down earlier is
    /// the violation the discipline exists to rule out.
    pub fn into_inner(self) -> (value: T)
        requires
            counter::is_free(self.counter()),
        ensures
            value == self.value(),
    {
        self.stored
    }

    /// Decides at run time whether a further shared borrow would be
    /// granted. False exactly where [`Self::borrow`] is forbidden: while
    /// the exclusive borrow is outstanding, or when the shared count can
    /// grow no further.
    pub fn can_borrow(&self) -> (granted: bool)
        ensures
            granted == counter::shared_borrow_allowed(self.counter()),
    {
        self.alive < usize::MAX - 1
    }

    /// Decides at run time whether the exclusive borrow would be granted:
    /// exactly when no borrow of any kind is outstanding.
    pub fn can_borrow_mut(&self) -> (granted: bool)
        ensures
            granted == counter::exclusive_borrow_allowed(self.counter()),
    {
        self.alive == 0
    }

    /// Whether any borrow is outstanding. While this holds, the owner
    /// must not be taken apart.
    pub fn has_outstanding_borrows(&self) -> (outstanding: bool)
        ensures
            outstanding == !counter::is_free(self.counter()),
    {
        self.alive != 0
    }

    /// The liveness counter as a plain number: `0`, a shared count, or
    /// the sentinel `usize::MAX` while the exclusive borrow is out.
    pub fn outstanding_count(&self) -> (count: usize)
        ensures
            count == self.counter(),
    {
        self.alive
    }
}

impl<T: Copy> ScopedReference<T> {
    /// Issues a shared borrow handle reading the owner's value. One step
    /// of [`counter::step`] with [`CounterOp::IssueShared`]: permitted
    /// exactly where that step is, and the counter moves as it says.
    pub fn borrow(&mut self) -> (handle: ScopedBorrow<T>)
        requires
            counter::shared_borrow_allowed(old(self).counter()),
        ensures
            counter::step(old(self).counter(), CounterOp::IssueShared) == Some(
                final(self).counter(),
            ),
            final(self).counter() == old(self).counter() + 1,
            final(self).value() == old(self).value(),
            final(self).is_shared_origin() == old(self).is_shared_origin(),
            handle.value() == old(self).value(),
    {
        self.alive = self.alive + 1;
        ScopedBorrow { stored: self.stored }
    }

    /// Issues a further shared handle from an existing one, reading the
    /// same value. One step with [`CounterOp::CloneShared`]; never fails
    /// while the shared count can grow.
    pub fn clone_borrow(&mut self, handle: &ScopedBorrow<T>) -> (cloned: ScopedBorrow<T>)
        requires
            counter::shared_borrow_allowed(old(self).counter()),
        ensures
            counter::step(old(self).counter(), CounterOp::CloneShared) == Some(
                final(self).counter(),
            ),
            final(self).counter() == old(self).counter() + 1,
            final(self).value() == old(self).value(),
            final(self).is_shared_origin() == old(self).is_shared_origin(),
            cloned.value() == handle.value(),
    {
        self.alive = self.alive + 1;
        ScopedBorrow { stored: handle.stored }
    }

    /// Releases a shared borrow handle, spending it. One step with
    /// [`CounterOp::ReleaseShared`]: the counter comes down by one.
    pub fn release_borrow(&mut self, _handle: ScopedBorrow<T>)
        requires
            counter::shared_release_allowed(old(self).counter()),
        ensures
            counter::step(old(self).counter(), CounterOp::ReleaseShared) == Some(
                final(self).counter(),
            ),
            final(self).counter() == old(self).counter() - 1,
            final(self).value() == old(self).value(),
            final(self).is_shared_origin() == old(self).is_shared_origin(),
    {
        self.alive = self.alive - 1;
    }

    /// Checks the value out into the single exclusive borrow handle. One
    /// step with [`CounterOp::IssueExclusive`]: permitted exactly when no
    /// borrow is outstanding, and the counter moves to the sentinel.
    /// Granted whether the owner was built shared or exclusive.
    pub fn borrow_mut(&mut self) -> (handle: ScopedBorrowMut<T>)
        requires
            counter::exclusive_borrow_allowed(old(self).counter()),
        ensures
            counter::step(old(self).counter(), CounterOp::IssueExclusive) == Some(
                final(self).counter(),
            ),
            final(self).counter() == counter::sentinel(),
            final(self).value() == old(self).value(),
            final(self).is_shared_origin() == old(self).is_shared_origin(),
            handle.value() == old(self).value(),
    {
        self.alive = usize::MAX;
        ScopedBorrowMut { stored: self.stored }
    }

    /// Releases the exclusive borrow handle, writing its last value back
    /// into the owner. One step with [`CounterOp::ReleaseExclusive`]: the
    /// counter returns to free, and every borrow taken afterwards reads
    /// the write.
    pub fn release_borrow_mut(&mut self, handle: ScopedBorrowMut<T>)
        requires
            counter::exclusive_release_allowed(old(self).counter()),
        ensures
            counter::step(old(self).counter(), CounterOp::ReleaseExclusive) == Some(
                final(self).counter(),
            ),
            final(self).counter() == 0,
            final(self).value() == handle.value(),
            final(self).is_shared_origin() == old(self).is_shared_origin(),
    {
        self.alive = 0;
        self.stored = handle.stored;
    }
}

impl<T> ScopedBorrow<T> {
    /// The value this handle reads.
    pub closed spec fn value(self) -> T {
        self.stored
    }

    /// Reads through the handle. Always valid while the handle exists.
    pub fn get(&self) -> (value: &T)
        ensures
            *value == self.value(),
    {
        &self.stored
    }
}

impl<T> ScopedBorrowMut<T> {
    /// The value this handle holds: the checked-out value, as last
    /// written through the handle.
    pub closed spec fn value(self) -> T {
        self.stored
    }

    /// Reads through the handle. Always valid while the handle exists.
    pub fn get(&self) -> (value: &T)
        ensures
            *value == self.value(),
    {
        &self.stored
    }

    /// Writes through the handle. The write becomes the owner's value
    /// when the handle is released.
    pub fn set(&mut self, value: T)
        ensures
            final(self).value() == value,
    {
        self.stored = value;
    }
}

/// Law: a write released through the exclusive handle is what every later
/// borrow reads. `after_release` stands for the owner as
/// [`ScopedReference::release_borrow_mut`] leaves it behind the handle
/// `written`, and `reader` for a handle that [`ScopedReference::borrow`]
/// then issues: the reader sees the released write.
pub proof fn lemma_write_then_read_visible<T>(
    after_release: ScopedReference<T>,
    written: ScopedBorrowMut<T>,
    reader: ScopedBorrow<T>,
)
    requires
        after_release.value() == written.value(),
        reader.value() == after_release.value(),
    ensures
        reader.value() == written.value(),
{
}

} // verus!
