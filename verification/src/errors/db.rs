//! The failures of the key-value repositories that the toolkit keeps.

use vstd::prelude::*;

verus! {

/// Why an operation on a repository failed.
#[derive(Debug, PartialEq, Eq, PartialOrd, Ord)]
pub enum StoreErr {
    PermissionDenied,
    StoreNotFound(String),
    EntryExists,
    DeletionErr(String),
    UpdateError(String),
    UpsertError(String),
    RepoPermissionDenied,
    RepoNotFound,
    SubscribeError,
}

} // verus!
