//! The failures that a run can end in.

use vstd::prelude::*;

verus! {

/// Why no staged diff could be had.
#[derive(Clone, Copy, Debug, PartialEq, Eq, Structural)]
pub enum DiffError {
    /// The working directory is not inside a repository.
    NotARepository,
    /// The version-control command could not be run or failed.
    Unreadable,
    /// Nothing is staged.
    NothingStaged,
}

/// Why no commit message was generated.
#[derive(Clone, Copy, Debug, PartialEq, Eq, Structural)]
pub enum GenerationError {
    /// The provider's credential is not set.
    MissingCredential,
    /// The system prompt is empty.
    MissingPrompt,
    /// There is no diff to describe; no request is made.
    Diff(DiffError),
    /// The request did not complete: the transport failed or timed out.
    Network,
    /// The reply is not a document of the provider's shape.
    Parse,
    /// The reply holds no text once it is trimmed and unwrapped.
    EmptyResponse,
}

/// Why the stored preferences could not be used or changed.
#[derive(Clone, Copy, Debug, PartialEq, Eq, Structural)]
pub enum ConfigError {
    /// The file is there but could not be read.
    Unreadable,
    /// The file was read but does not hold a preferences record.
    Corrupt,
}

/// Why the catalog was not refreshed.
#[derive(Clone, Copy, Debug, PartialEq, Eq, Structural)]
pub enum CatalogError {
    /// The listing could not be fetched; the cached catalog stands.
    FetchFailed,
}

} // verus!
