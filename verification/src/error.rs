//! The error taxonomy of the folder library.

use vstd::prelude::*;

verus! {

/// Why a folder operation could not be served.
///
/// `NotFound` means no cached entry exists (distinct from an empty tree);
/// `InvalidParams` rejects malformed input before it reaches the remote
/// authority; `RemoteUnavailable` and `RemoteRejected` report a failed or
/// refused authority call; `StorageFailure` reports a malfunction of the
/// local persistence layer.
#[derive(Clone, Copy, Debug, PartialEq, Eq, Structural)]
pub enum FolderError {
    NotFound,
    InvalidParams,
    RemoteUnavailable,
    RemoteRejected,
    StorageFailure,
}

} // verus!
