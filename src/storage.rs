use vstd::prelude::*;
use dashmap::DashMap;
use std::collections::hash_map::RandomState;
use crate::error::RepoError;
use crate::query::GetFullUrlRepository;

verus! {

/// A mapping from short identifier to full URL, as character sequences.
pub type UrlMap = Map<Seq<char>, Seq<char>>;

#[verifier::external_type_specification]
#[verifier::external_body]
#[verifier::reject_recursive_types(K)]
#[verifier::reject_recursive_types(V)]
#[verifier::reject_recursive_types(S)]
pub struct ExDashMap<K, V, S>(DashMap<K, V, S>);

/// The entries that a `DashMap` of strings holds, as a map from key to value.
pub uninterp spec fn dash_entries(m: DashMap<String, String, RandomState>) -> UrlMap;

/// Relies on `DashMap::new`: a new map holds no entry.
#[verifier::external_body]
fn dash_new() -> (m: DashMap<String, String, RandomState>)
    ensures
        dash_entries(m) == UrlMap::empty(),
{
    DashMap::new()
}

/// Relies on `DashMap::insert`: the key maps to the value afterwards, and no
/// other entry changes.
#[verifier::external_body]
fn dash_insert(m: &mut DashMap<String, String, RandomState>, key: String, value: String)
    ensures
        dash_entries(*final(m)) == dash_entries(*old(m)).insert(key@, value@),
{
    m.insert(key, value);
}

/// Relies on `DashMap::get`: the value stored under the key, if any.
#[verifier::external_body]
fn dash_get(m: &DashMap<String, String, RandomState>, key: &str) -> (r: Option<String>)
    ensures
        r matches Some(v) ==> dash_entries(*m).contains_key(key@) && v@ == dash_entries(*m)[key@],
        r is None ==> !dash_entries(*m).contains_key(key@),
{
    m.get(key).map(|e| e.value().clone())
}

/// Relies on `DashMap::len`: the number of entries.
#[verifier::external_body]
fn dash_len(m: &DashMap<String, String, RandomState>) -> (r: usize)
    ensures
        r == dash_entries(*m).len(),
{
    m.len()
}

/// The write capability: persists an (identifier, URL) pair.
pub trait CreateShortUrlRepository {
    /// The entries that the backend holds.
    spec fn saved(&self) -> UrlMap;

    /// Whether the backend accepts every write.
    spec fn never_refuses(&self) -> bool;

    /// Stores `full_url` under `id`, overwriting an entry already there.
    fn save(&mut self, full_url: String, id: String) -> (r: Result<(), RepoError>)
        ensures
            r is Ok ==> final(self).saved() == old(self).saved().insert(id@, full_url@),
            r is Err ==> r == Err::<(), RepoError>(RepoError::WriteFailure),
            r is Err ==> final(self).saved() == old(self).saved(),
            old(self).never_refuses() ==> r is Ok,
            final(self).never_refuses() == old(self).never_refuses(),
    ;
}

/// The URL store: a map from short identifier to full URL.
pub struct StorageRepository {
    store: DashMap<String, String, RandomState>,
}

impl View for StorageRepository {
    type V = UrlMap;

    closed spec fn view(&self) -> UrlMap {
        dash_entries(self.store)
    }
}

impl StorageRepository {
    /// A repository over the given map, keeping the entries it already holds.
    pub fn new(store: DashMap<String, String, RandomState>) -> (r: Self)
        ensures
            r@ == dash_entries(store),
    {
        StorageRepository { store }
    }

    /// A repository over a new, empty map.
    pub fn empty() -> (r: Self)
        ensures
            r@ == UrlMap::empty(),
    {
        StorageRepository { store: dash_new() }
    }

    /// The number of stored entries.
    pub fn len(&self) -> (r: usize)
        ensures
            r == self@.len(),
    {
        dash_len(&self.store)
    }

    /// Inserts or overwrites the entry for `id`.
    pub fn insert(&mut self, id: String, url: String)
        ensures
            final(self)@ == old(self)@.insert(id@, url@),
    {
        dash_insert(&mut self.store, id, url);
    }

    /// The URL stored under `id`, if any.
    pub fn lookup(&self, id: &str) -> (r: Option<String>)
        ensures
            r matches Some(u) ==> self@.contains_key(id@) && u@ == self@[id@],
            r is None ==> !self@.contains_key(id@),
    {
        dash_get(&self.store, id)
    }
}

impl CreateShortUrlRepository for StorageRepository {
    open spec fn saved(&self) -> UrlMap {
        self@
    }

    open spec fn never_refuses(&self) -> bool {
        true
    }

    fn save(&mut self, full_url: String, id: String) -> (r: Result<(), RepoError>) {
        self.insert(id, full_url);
        Ok(())
    }
}

impl GetFullUrlRepository for StorageRepository {
    open spec fn entries(&self) -> UrlMap {
        self@
    }

    fn get(&self, id: &str) -> (r: Result<String, RepoError>) {
        match self.lookup(id) {
            Some(url) => Ok(url),
            None => Err(RepoError::NotFound),
        }
    }
}

/// Reading through a shared borrow, so that a query can resolve against the
/// store that a command writes to.
impl<'a> GetFullUrlRepository for &'a StorageRepository {
    open spec fn entries(&self) -> UrlMap {
        (**self)@
    }

    fn get(&self, id: &str) -> (r: Result<String, RepoError>) {
        (**self).get(id)
    }
}

} // verus!
