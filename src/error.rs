use vstd::prelude::*;

verus! {

/// Failures that the store reports.
#[derive(Debug, Clone, Copy, PartialEq, Eq, Structural)]
pub enum ExdirError {
    /// The store (or object) does not exist where it must.
    NotFound,
    /// A destructive open without confirmation, or a sibling name already taken.
    AlreadyExists,
    /// A directory is present but holds no valid envelope.
    InvalidFormat,
    /// An unrecognised mode token, or a name that the naming policy rejects.
    InvalidArgument,
    /// An underlying filesystem or serialisation step failed.
    IoFailure,
    /// The store's write lock is held by another handle.
    LockContention,
}

} // verus!
