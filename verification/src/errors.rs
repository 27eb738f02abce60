use vstd::prelude::*;

verus! {

/// Construction of a cell failed: the host could not supply the memory or the
/// synchronization object that the cell needs. Reported to the caller and
/// never fatal to the process.
#[derive(Clone, Copy, Debug, PartialEq, Eq, Structural)]
pub enum AllocError {
    OutOfResources,
}

/// Acquiring a lock failed because the cell's internal state is corrupt. This
/// is a programming-error class of failure: under correct use of a
/// successfully constructed cell it never occurs, and the contracts of the
/// locking operations promise success.
#[derive(Clone, Copy, Debug, PartialEq, Eq, Structural)]
pub enum LockError {
    Corrupted,
}

/// Errors of the registry lifecycle, of registration and of typed lookup.
/// All of them are recoverable: the caller decides what to do.
#[derive(Clone, Copy, Debug, PartialEq, Eq, Structural)]
pub enum RegistryError {
    /// `init` has not run yet, or the registry has been torn down.
    NotInitialized,
    /// `init` ran a second time.
    AlreadyInitialized,
    /// A registration used a key that is already present.
    DuplicateKey,
    /// A lookup used a key that is not present.
    NotFound,
    /// A lookup asked for a type other than the one registered under the key.
    TypeMismatch,
}

} // verus!
