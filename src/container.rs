use vstd::prelude::*;
use crate::command::CreateShortUrlCommand;
use crate::id_provider::IDProvider;
use crate::query::{GetFullUrlQuery, GetFullUrlRepository};
use crate::storage::CreateShortUrlRepository;

verus! {

/// Assembles the two operations from their collaborators.
pub trait DC<I: IDProvider, R: CreateShortUrlRepository, Q: GetFullUrlRepository> {
    fn new(id_provider: I, repository: R, querier: Q) -> (r: Container<I, R, Q>)
        ensures
            r.command.provider() == id_provider,
            r.command.repository() == repository,
            r.query.repository() == querier,
    ;
}

/// The create and get operations, wired to their collaborators.
pub struct Container<I: IDProvider, R: CreateShortUrlRepository, Q: GetFullUrlRepository> {
    pub command: CreateShortUrlCommand<I, R>,
    pub query: GetFullUrlQuery<Q>,
}

impl<I: IDProvider, R: CreateShortUrlRepository, Q: GetFullUrlRepository> DC<I, R, Q> for Container<I, R, Q> {
    fn new(id_provider: I, repository: R, querier: Q) -> (r: Container<I, R, Q>) {
        let command = CreateShortUrlCommand::new(id_provider, repository);
        let query = GetFullUrlQuery::new(querier);
        Container { command, query }
    }
}

} // verus!
