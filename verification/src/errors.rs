use vstd::prelude::*;

verus! {

/// The error taxonomy of the migration engine. Each variant carries only a
/// semantic payload (a status code, or a message), independent of any
/// transport library's own error representation.
#[derive(Debug, Clone, PartialEq, Eq)]
pub enum RepoCopyError {
    /// A request could not be sent, or its connection failed.
    Http(String),
    /// The metadata API answered with a non-success status.
    HttpError(u16),
    /// A clone, fetch, branch or push operation failed.
    Git(String),
    /// A temporary working directory could not be created or removed.
    Io(String),
    /// A response body could not be parsed.
    Json(String),
    /// An authentication header could not be built from the token.
    InvalidHeader(String),
    /// The destination rejected the creation request with this status.
    CreateRepoError(u16),
    /// The destination rejected the topic update with this status.
    SetTopicsError(u16),
}

impl RepoCopyError {
    /// Classifies a bare status code from the metadata API: whether the status
    /// marks a client or a server error, the kind is the same.
    pub fn from_status(status: u16) -> (r: RepoCopyError)
        ensures
            r == RepoCopyError::HttpError(status),
    {
        RepoCopyError::HttpError(status)
    }
}

} // verus!
