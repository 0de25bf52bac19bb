use vstd::prelude::*;

verus! {

/// The kinds of failure that a repository reports.
#[derive(Debug, Clone, Copy, PartialEq, Eq, Structural)]
pub enum RepoError {
    /// The identifier is absent from the store.
    NotFound,
    /// The backend refused a write (never produced by the in-memory store).
    WriteFailure,
}

impl RepoError {
    /// A human-readable text for the error.
    pub fn message(&self) -> (r: String)
        ensures
            *self == RepoError::NotFound ==> r@ == "Not found"@,
            *self == RepoError::WriteFailure ==> r@ == "Write failure"@,
    {
        match self {
            RepoError::NotFound => String::from_str("Not found"),
            RepoError::WriteFailure => String::from_str("Write failure"),
        }
    }
}

} // verus!
