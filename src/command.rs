use vstd::prelude::*;
use crate::error::RepoError;
use crate::id_provider::IDProvider;
use crate::storage::CreateShortUrlRepository;

verus! {

/// The create-short-URL operation: mints an identifier and persists the pair.
pub struct CreateShortUrlCommand<I: IDProvider, R: CreateShortUrlRepository> {
    id_provider: I,
    repo: R,
}

impl<I: IDProvider, R: CreateShortUrlRepository> CreateShortUrlCommand<I, R> {
    /// The identifier provider that the command draws from.
    pub closed spec fn provider(&self) -> I {
        self.id_provider
    }

    /// The repository that the command writes to.
    pub closed spec fn repository(&self) -> R {
        self.repo
    }

    pub fn new(id_provider: I, repo: R) -> (r: Self)
        ensures
            r.provider() == id_provider,
            r.repository() == repo,
    {
        CreateShortUrlCommand { id_provider, repo }
    }

    /// The repository, read-only.
    pub fn repo(&self) -> (r: &R)
        ensures
            *r == self.repository(),
    {
        &self.repo
    }

    /// Gives up the command and hands back its repository.
    pub fn into_repo(self) -> (r: R)
        ensures
            r == self.repository(),
    {
        self.repo
    }

    /// Mints an identifier for `full_url` and stores the pair; returns the
    /// identifier, or the error that the repository reported.
    pub fn execute(&mut self, full_url: String) -> (r: Result<String, RepoError>)
        ensures
            final(self).provider() == old(self).provider(),
            r matches Ok(id) ==> old(self).provider().may_provide(id@)
                && final(self).repository().saved() == old(self).repository().saved().insert(id@, full_url@),
            r matches Err(e) ==> e == RepoError::WriteFailure
                && final(self).repository().saved() == old(self).repository().saved(),
            old(self).repository().never_refuses() ==> r is Ok,
            final(self).repository().never_refuses() == old(self).repository().never_refuses(),
    {
        let id = self.id_provider.provide();
        let id_copy = id.clone();
        match self.repo.save(full_url, id) {
            Ok(()) => Ok(id_copy),
            Err(e) => Err(e),
        }
    }
}

} // verus!
