use vstd::prelude::*;

verus! {

/// The error kinds every operation of this crate can surface.
///
/// `UnderlyingStoreFailure` wraps any lower-level failure of the object
/// store that is not otherwise classified (lock contention, I/O faults,
/// and the refusal to traverse into a nested repository), carrying the
/// store's own message.
#[derive(Debug, Clone, PartialEq, Eq)]
pub enum Error {
    /// No repository was found at or above the given path.
    NotARepository,
    /// The repository has no working tree; bare repositories are
    /// categorically unsupported here.
    BareRepository,
    /// The working-tree root could not be resolved.
    NoWorkDir,
    /// The repository has no snapshot yet (unborn branch).
    NoHead,
    /// Bytes that had to be text were not valid UTF-8.
    InvalidUtf8,
    /// A path could not be represented in the required text encoding.
    InvalidPath,
    /// Any other failure of the underlying store, with its message.
    UnderlyingStoreFailure(String),
}

} // verus!
