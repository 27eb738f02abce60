use vstd::prelude::*;

use crate::cell::Guard;
use crate::errors::{AllocError, LockError};

verus! {

/// A guarded cell whose lock never suspends the calling thread: instead of a
/// blocking wait it actively retries (spins) until exclusive access is
/// available. This is the only variant that is safe to lock when the caller
/// may be executing at `Elevated` level, where descheduling is forbidden; at
/// `Passive` level the blocking variant avoids wasting CPU and should be
/// preferred. Apart from that distinction the contract is the same as the
/// blocking cell's.
pub struct FastGuardedCell<T> {
    slot: Option<T>,
}

impl<T> FastGuardedCell<T> {
    /// Whether a guard is currently outstanding.
    pub closed spec fn is_locked(self) -> bool {
        self.slot is None
    }

    /// The value the cell owns (meaningful while no guard is outstanding).
    pub closed spec fn value(self) -> T {
        self.slot->0
    }

    /// Create a cell owning `value`, unlocked. Construction reports failure to
    /// the caller when the host cannot supply the synchronization state; this
    /// host always can, so the result is always `Ok`.
    pub fn new(value: T) -> (r: Result<FastGuardedCell<T>, AllocError>)
        ensures
            r matches Ok(c) && !c.is_locked() && c.value() == value,
    {
        Ok(FastGuardedCell { slot: Some(value) })
    }

    /// Acquire exclusive access by spinning until it is granted, at any
    /// execution level. The caller must not already hold this cell's guard,
    /// because the spin could then never end. The result is always `Ok`.
    pub fn lock(&mut self) -> (r: Result<Guard<T>, LockError>)
        requires
            !old(self).is_locked(),
        ensures
            r matches Ok(g) && g.value() == old(self).value(),
            final(self).is_locked(),
    {
        match self.slot.take() {
            Some(v) => Ok(Guard::hold(v)),
            None => Err(LockError::Corrupted),
        }
    }

    /// Return a guard to the cell it was acquired from, storing its value back
    /// and releasing the lock.
    pub fn unlock(&mut self, guard: Guard<T>)
        requires
            old(self).is_locked(),
        ensures
            !final(self).is_locked(),
            final(self).value() == guard.value(),
    {
        self.slot = Some(guard.into_inner());
    }

    /// Acquire the lock, copy the value out, release the lock, and return the
    /// copy. This bypasses the guard discipline, so the caller must know that
    /// no other live alias still expects exclusive-access semantics; in
    /// particular no guard may be outstanding, or the acquisition could never
    /// be granted.
    pub fn to_owned(&self) -> (r: T) where T: Copy
        requires
            !self.is_locked(),
        ensures
            r == self.value(),
    {
        *self.slot.as_ref().unwrap()
    }

    /// Like `to_owned`, but returns the copy as a heap-allocated, uniquely
    /// owned handle.
    pub fn to_owned_box(&self) -> (r: Box<T>) where T: Copy
        requires
            !self.is_locked(),
        ensures
            *r == self.value(),
    {
        Box::new(*self.slot.as_ref().unwrap())
    }
}

/// Extraction equivalence for the spinning cell: any value that `to_owned`
/// can return and any handle that `to_owned_box` can return for the same cell
/// hold equal values, and neither extractor mutates the cell.
pub proof fn lemma_fast_extraction_equivalence<T>(
    cell: FastGuardedCell<T>,
    owned: T,
    boxed: Box<T>,
)
    requires
        !cell.is_locked(),
        owned == cell.value(),
        *boxed == cell.value(),
    ensures
        owned == *boxed,
{
}

} // verus!
