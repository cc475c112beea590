//! Error taxonomy for the publish pipeline. Every stage failure keeps its
//! tag so callers can tell client faults from backend faults, and an index
//! failure from a rejected push.

use vstd::prelude::*;

verus! {

/// Failure of a storage backend.
#[derive(Debug, Clone, Copy, PartialEq, Eq, Structural)]
pub enum StorageError {
    /// Filesystem backend failed to create a directory or write the archive.
    Io,
    /// Remote backend could not reach the service.
    Transport,
    /// Remote backend answered with a status other than "created".
    UnexpectedStatus(u16),
}

/// Failure of any stage of one publish.
#[derive(Debug, Clone, Copy, PartialEq, Eq, Structural)]
pub enum PublishError {
    /// Malformed upload framing or a manifest segment that is not UTF-8.
    MalformedUpload,
    /// The manifest bytes were not a valid manifest document.
    ManifestParse,
    /// The identity check refused the token.
    Authentication,
    /// The storage backend failed to persist the archive.
    Storage(StorageError),
    /// A filesystem, serialization or version-control step of the index
    /// update failed before the push.
    Index,
    /// The remote refused the ref update: a local commit exists that is not
    /// externally visible.
    PushRejected,
}

} // verus!
