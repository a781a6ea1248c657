//! The error kinds that store operations surface to their callers.

use vstd::prelude::*;

verus! {

/// Every failure of a store operation falls into one of these kinds.
///
/// - `Io`: a file or directory could not be read, written or created.
/// - `VersionControl`: the underlying history engine failed while
///   opening, initialising, staging or committing.
/// - `Serialization`: a record could not be turned into bytes, or bytes
///   could not be turned back into a record.
/// - `UnknownCollection`: a read addressed a collection whose directory
///   does not exist.
/// - `InvalidName`: a collection or document id is malformed: it could
///   escape the store root (path separators or parent-directory
///   segments), contains a NUL character, or is empty.
/// - `NotFound`: a single-document lookup missed.
/// - `Transport`: cloning from or pushing to a remote failed on the
///   network or during authentication.
#[derive(Clone, Copy, Debug, PartialEq, Eq, Structural)]
pub enum DatabaseError {
    Io,
    VersionControl,
    Serialization,
    UnknownCollection,
    InvalidName,
    NotFound,
    Transport,
}

} // verus!
