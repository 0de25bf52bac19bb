use vstd::prelude::*;
use crate::query::GetFullUrlRepository;
use crate::storage::{CreateShortUrlRepository, StorageRepository, UrlMap};

verus! {

/// The store after saving each (identifier, URL) pair of `pairs` in order.
pub open spec fn apply_saves(m: UrlMap, pairs: Seq<(Seq<char>, Seq<char>)>) -> UrlMap
    decreases pairs.len(),
{
    if pairs.len() == 0 {
        m
    } else {
        apply_saves(m, pairs.drop_last()).insert(pairs.last().0, pairs.last().1)
    }
}

/// Round trip: once a save of `url` under `id` has turned `before` into
/// `after`, reading `id` from `after` gives `url`.
pub proof fn law_round_trip(before: StorageRepository, after: StorageRepository, id: Seq<char>, url: Seq<char>)
    requires
        after.saved() == before.saved().insert(id, url),
    ensures
        after.entries().contains_key(id),
        after.entries()[id] == url,
{
}

/// Isolation: after saving two pairs with distinct identifiers, each
/// identifier reads back its own URL.
pub proof fn law_isolation(
    before: StorageRepository,
    after: StorageRepository,
    id1: Seq<char>,
    url1: Seq<char>,
    id2: Seq<char>,
    url2: Seq<char>,
)
    requires
        id1 != id2,
        after.saved() == before.saved().insert(id1, url1).insert(id2, url2),
    ensures
        after.entries()[id1] == url1,
        after.entries()[id2] == url2,
        after.entries().contains_key(id1),
        after.entries().contains_key(id2),
{
}

/// Not found: starting from an empty store, an identifier that none of the
/// saves used is absent, so reading it fails.
pub proof fn law_not_found(pairs: Seq<(Seq<char>, Seq<char>)>, id: Seq<char>)
    requires
        forall|i: int| 0 <= i < pairs.len() ==> (#[trigger] pairs[i]).0 != id,
    ensures
        !apply_saves(UrlMap::empty(), pairs).contains_key(id),
    decreases pairs.len(),
{
    if pairs.len() > 0 {
        let rest = pairs.drop_last();
        assert forall|i: int| 0 <= i < rest.len() implies (#[trigger] rest[i]).0 != id by {
            assert(rest[i] == pairs[i]);
        }
        law_not_found(rest, id);
        assert(pairs.last() == pairs[pairs.len() - 1]);
    }
}

/// Idempotent reads: reading does not change the store, so every read of a
/// stored identifier sees the same URL; saves under other identifiers keep
/// it too.
pub proof fn law_reads_stable(m: UrlMap, id: Seq<char>, other: Seq<char>, url: Seq<char>)
    requires
        m.contains_key(id),
        other != id,
    ensures
        m.insert(other, url).contains_key(id),
        m.insert(other, url)[id] == m[id],
{
}

/// Insert visibility: after saving pairs with pairwise distinct identifiers,
/// each identifier reads back exactly the URL saved with it.
pub proof fn law_all_saves_visible(m: UrlMap, pairs: Seq<(Seq<char>, Seq<char>)>)
    requires
        forall|i: int, j: int| 0 <= i < j < pairs.len() ==> (#[trigger] pairs[i]).0 != (#[trigger] pairs[j]).0,
    ensures
        forall|i: int| 0 <= i < pairs.len() ==> #[trigger] apply_saves(m, pairs).contains_key(pairs[i].0)
            && apply_saves(m, pairs)[pairs[i].0] == pairs[i].1,
    decreases pairs.len(),
{
    if pairs.len() > 0 {
        let rest = pairs.drop_last();
        let n = pairs.len() - 1;
        assert forall|i: int, j: int| 0 <= i < j < rest.len() implies (#[trigger] rest[i]).0 != (#[trigger] rest[j]).0 by {
            assert(rest[i] == pairs[i]);
            assert(rest[j] == pairs[j]);
        }
        law_all_saves_visible(m, rest);
        assert(pairs.last() == pairs[n]);
        assert(apply_saves(m, pairs) == apply_saves(m, rest).insert(pairs[n].0, pairs[n].1));
        assert forall|i: int| 0 <= i < pairs.len() implies #[trigger] apply_saves(m, pairs).contains_key(pairs[i].0)
            && apply_saves(m, pairs)[pairs[i].0] == pairs[i].1 by {
            if i < n {
                assert(rest[i] == pairs[i]);
                assert(pairs[i].0 != pairs[n].0);
                assert(apply_saves(m, rest).contains_key(rest[i].0));
            }
        }
    }
}

} // verus!
