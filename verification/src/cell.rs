use vstd::prelude::*;

use crate::errors::{AllocError, LockError};

verus! {

/// The execution level of the calling thread. At `Passive` level the host
/// scheduler may suspend the thread, so a blocking wait is allowed. At
/// `Elevated` level the thread must not be descheduled: a blocking wait is
/// forbidden there, and only the spinning cell variant may be locked.
#[derive(Clone, Copy, Debug, PartialEq, Eq, Structural)]
pub enum ExecLevel {
    Passive,
    Elevated,
}

/// A scoped exclusive borrow of the value owned by a guarded cell. A guard is
/// produced by locking a cell, which moves the value into the guard; while the
/// guard exists the cell is locked and can grant no second guard. Returning
/// the guard to its cell with `unlock` stores the (possibly mutated) value
/// back and makes the cell acquirable again.
pub struct Guard<T> {
    inner: T,
}

impl<T> Guard<T> {
    /// The value the guard currently holds.
    pub closed spec fn value(self) -> T {
        self.inner
    }

    /// Wrap a value that a cell has just moved out while granting exclusive
    /// access. Only the locking operations of the two cell variants create
    /// guards.
    pub(crate) fn hold(v: T) -> (g: Guard<T>)
        ensures
            g.value() == v,
    {
        Guard { inner: v }
    }

    /// Read access to the guarded value.
    pub fn get(&self) -> (r: &T)
        ensures
            *r == self.value(),
    {
        &self.inner
    }

    /// Replace the guarded value.
    pub fn set(&mut self, v: T)
        ensures
            final(self).value() == v,
    {
        self.inner = v;
    }

    /// Give up the guard and take the value out of it.
    pub fn into_inner(self) -> (r: T)
        ensures
            r == self.value(),
    {
        self.inner
    }
}

/// A container owning exactly one value of type `T` and granting scoped,
/// exclusive, lock-based access to it. Locking suspends the calling thread
/// until exclusive access is granted, so it is only safe at `Passive` level;
/// code that may run at `Elevated` level must use the spinning variant
/// instead.
///
/// At most one guard exists at a time: `lock` moves the value into the guard
/// and marks the cell locked, and only `unlock` makes it acquirable again.
pub struct GuardedCell<T> {
    slot: Option<T>,
}

impl<T> GuardedCell<T> {
    /// Whether a guard is currently outstanding.
    pub closed spec fn is_locked(self) -> bool {
        self.slot is None
    }

    /// The value the cell owns (meaningful while no guard is outstanding).
    pub closed spec fn value(self) -> T {
        self.slot->0
    }

    /// Create a cell owning `value`, unlocked. Construction reports failure to
    /// the caller when the host cannot supply the synchronization state; this
    /// host always can, so the result is always `Ok`.
    pub fn new(value: T) -> (r: Result<GuardedCell<T>, AllocError>)
        ensures
            r matches Ok(c) && !c.is_locked() && c.value() == value,
    {
        Ok(GuardedCell { slot: Some(value) })
    }

    /// Acquire exclusive access, suspending the calling thread until it is
    /// granted. The calling thread must run at `Passive` level, because the
    /// wait may block; and it must not already hold this cell's guard, because
    /// the wait could then never end. Once constructed the underlying wait
    /// primitive cannot fail, so the result is always `Ok`.
    pub fn lock(&mut self, level: ExecLevel) -> (r: Result<Guard<T>, LockError>)
        requires
            !old(self).is_locked(),
            level is Passive,
        ensures
            r matches Ok(g) && g.value() == old(self).value(),
            final(self).is_locked(),
    {
        match self.slot.take() {
            Some(v) => Ok(Guard { inner: v }),
            None => Err(LockError::Corrupted),
        }
    }

    /// Return a guard to the cell it was acquired from, storing its value back
    /// and releasing the lock.
    pub fn unlock(&mut self, guard: Guard<T>)
        requires
            old(self).is_locked(),
        ensures
            !final(self).is_locked(),
            final(self).value() == guard.value(),
    {
        self.slot = Some(guard.into_inner());
    }

    /// Acquire the lock, copy the value out, release the lock, and return the
    /// copy. This bypasses the guard discipline, so the caller must know that
    /// no other live alias still expects exclusive-access semantics; in
    /// particular no guard may be outstanding, or the acquisition could never
    /// be granted.
    pub fn to_owned(&self) -> (r: T) where T: Copy
        requires
            !self.is_locked(),
        ensures
            r == self.value(),
    {
        *self.slot.as_ref().unwrap()
    }

    /// Like `to_owned`, but returns the copy as a heap-allocated, uniquely
    /// owned handle.
    pub fn to_owned_box(&self) -> (r: Box<T>) where T: Copy
        requires
            !self.is_locked(),
        ensures
            *r == self.value(),
    {
        Box::new(*self.slot.as_ref().unwrap())
    }
}

/// Extraction equivalence: any value that `to_owned` can return and any handle
/// that `to_owned_box` can return for the same cell hold equal values — each
/// contract pins its result to the cell's value. Both extractors take the cell
/// by shared reference, so neither mutates it: a later `lock` still sees the
/// same value.
pub proof fn lemma_extraction_equivalence<T>(cell: GuardedCell<T>, owned: T, boxed: Box<T>)
    requires
        !cell.is_locked(),
        owned == cell.value(),
        *boxed == cell.value(),
    ensures
        owned == *boxed,
{
}

} // verus!
