use vstd::prelude::*;
use crate::error::RepoError;
use crate::storage::UrlMap;

verus! {

/// The read capability: resolves an identifier to its URL.
pub trait GetFullUrlRepository {
    /// The entries that the backend holds.
    spec fn entries(&self) -> UrlMap;

    /// The URL stored under `id`, or `NotFound` when there is none.
    fn get(&self, id: &str) -> (r: Result<String, RepoError>)
        ensures
            r matches Ok(u) ==> self.entries().contains_key(id@) && u@ == self.entries()[id@],
            r matches Err(e) ==> e == RepoError::NotFound && !self.entries().contains_key(id@),
    ;
}

/// The get-full-URL operation over a read capability.
pub struct GetFullUrlQuery<R: GetFullUrlRepository> {
    repo: R,
}

impl<R: GetFullUrlRepository> GetFullUrlQuery<R> {
    /// The repository that the query reads.
    pub closed spec fn repository(&self) -> R {
        self.repo
    }

    pub fn new(repo: R) -> (r: Self)
        ensures
            r.repository() == repo,
    {
        GetFullUrlQuery { repo }
    }

    /// Resolves `id` to its URL; `NotFound` exactly when it is absent.
    pub fn execute(&self, id: &str) -> (r: Result<String, RepoError>)
        ensures
            r matches Ok(u) ==> self.repository().entries().contains_key(id@)
                && u@ == self.repository().entries()[id@],
            r is Err <==> !self.repository().entries().contains_key(id@),
            r matches Err(e) ==> e == RepoError::NotFound,
    {
        self.repo.get(id)
    }
}

} // verus!
