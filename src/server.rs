use vstd::prelude::*;
use crate::container::Container;
use crate::id_provider::IDProvider;
use crate::query::GetFullUrlRepository;
use crate::storage::CreateShortUrlRepository;

verus! {

/// What the HTTP front end is started with: a port and the wired operations.
pub struct Server<I: IDProvider, R: CreateShortUrlRepository, Q: GetFullUrlRepository> {
    port: u16,
    container: Container<I, R, Q>,
}

impl<I: IDProvider, R: CreateShortUrlRepository, Q: GetFullUrlRepository> Server<I, R, Q> {
    /// The port to listen on.
    pub closed spec fn port_spec(&self) -> u16 {
        self.port
    }

    /// The operations that requests are served with.
    pub closed spec fn container_spec(&self) -> Container<I, R, Q> {
        self.container
    }

    pub fn new(port: u16, container: Container<I, R, Q>) -> (r: Self)
        ensures
            r.port_spec() == port,
            r.container_spec() == container,
    {
        Server { port, container }
    }

    pub fn port(&self) -> (r: u16)
        ensures
            r == self.port_spec(),
    {
        self.port
    }

    /// Gives up the server description and hands back its operations.
    pub fn into_container(self) -> (r: Container<I, R, Q>)
        ensures
            r == self.container_spec(),
    {
        self.container
    }
}

} // verus!
