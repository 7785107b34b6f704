//! Properties of the create and resolve paths against a store that holds each
//! code at most once and never changes or removes a record.
use crate::shortener::{
    cache_after_lookup, create_step_ok, lookup_result, CreateStep, InsertOutcome, PendingCreate,
    ResolveError, StoreLookup, UrlMap,
};
use vstd::prelude::*;

verus! {

/// Every cached entry agrees with the record the store holds for its code.
pub open spec fn coherent(cache: UrlMap, store: UrlMap) -> bool {
    forall|c: Seq<char>| #[trigger]
        cache.contains_key(c) ==> store.contains_key(c) && store[c] == cache[c]
}

/// `lookup` is a truthful answer of a store holding `store` to a lookup of
/// `code` (a failure says nothing).
pub open spec fn answers(store: UrlMap, code: Seq<char>, lookup: StoreLookup) -> bool {
    match lookup {
        StoreLookup::Found(u) => store.contains_key(code) && store[code] == u@,
        StoreLookup::Missing => !store.contains_key(code),
        StoreLookup::Failed => true,
    }
}

/// A created code resolves to the URL it was created for. The insert went
/// through, so the store now maps the code to the URL and the cache was filled
/// with the same pair: a resolve hits the cache with that URL. Were the cache
/// cold for the code, any answer of the store but a failure gives the URL too.
pub proof fn lemma_round_trip(
    p: PendingCreate,
    r: CreateStep,
    cache: UrlMap,
    after: UrlMap,
    store: UrlMap,
    lookup: StoreLookup,
)
    requires
        coherent(cache, store),
        !store.contains_key(p.short_code@),
        create_step_ok(p, InsertOutcome::Inserted, r, cache, after),
        answers(store.insert(p.short_code@, p.long_url@), p.short_code@, lookup),
        !(lookup is Failed),
    ensures
        r is Created,
        after.contains_key(r->Created_0@),
        after[r->Created_0@] == p.long_url@,
        coherent(after, store.insert(p.short_code@, p.long_url@)),
        lookup_result(lookup) == Ok::<Seq<char>, ResolveError>(p.long_url@),
{
}

/// Codes returned by a run of creates are pairwise distinct. Each create
/// returns a code only after the store took its record, which the store's
/// constraint allows only for a code it does not hold yet; and the store keeps
/// every earlier record. Racing creates are ordered by the store the same way.
pub proof fn lemma_codes_unique(codes: Seq<Seq<char>>, urls: Seq<Seq<char>>, stores: Seq<UrlMap>)
    requires
        stores.len() == codes.len() + 1,
        urls.len() == codes.len(),
        forall|i: int|
            0 <= i < codes.len() ==> !(#[trigger] stores[i]).contains_key(codes[i]) && stores[i
                + 1] == stores[i].insert(codes[i], urls[i]),
    ensures
        forall|i: int, j: int| 0 <= i < j < codes.len() ==> codes[i] != codes[j],
{
    assert forall|i: int, j: int| 0 <= i < j < codes.len() implies codes[i] != codes[j] by {
        lemma_store_keeps(codes, urls, stores, i, j);
    }
}

/// Once the store took the record of create `i`, every later store holds its code.
proof fn lemma_store_keeps(
    codes: Seq<Seq<char>>,
    urls: Seq<Seq<char>>,
    stores: Seq<UrlMap>,
    i: int,
    k: int,
)
    requires
        stores.len() == codes.len() + 1,
        urls.len() == codes.len(),
        forall|i: int|
            0 <= i < codes.len() ==> !(#[trigger] stores[i]).contains_key(codes[i]) && stores[i
                + 1] == stores[i].insert(codes[i], urls[i]),
        0 <= i < k <= codes.len(),
    ensures
        stores[k].contains_key(codes[i]),
    decreases k - i,
{
    if k > i + 1 {
        lemma_store_keeps(codes, urls, stores, i, k - 1);
        assert(stores[k] == stores[k - 1].insert(codes[k - 1], urls[k - 1]));
    } else {
        assert(stores[i + 1] == stores[i].insert(codes[i], urls[i]));
    }
}

/// After a resolve succeeded from the store, the code is cached with the URL it
/// returned, so the next resolve of it hits the cache, makes no store access,
/// and returns the same URL. Caching a truthful answer keeps the cache coherent.
pub proof fn lemma_resolved_code_cached(
    cache: UrlMap,
    store: UrlMap,
    code: Seq<char>,
    lookup: StoreLookup,
)
    requires
        lookup_result(lookup) is Ok,
    ensures
        cache_after_lookup(cache, code, lookup).contains_key(code),
        cache_after_lookup(cache, code, lookup)[code] == lookup_result(lookup)->Ok_0,
        coherent(cache, store) && answers(store, code, lookup) ==> coherent(
            cache_after_lookup(cache, code, lookup),
            store,
        ),
{
}

/// A lookup that finds nothing returns `NotFound` and leaves the cache as it
/// was, with no entry for the code. A later create of exactly that code is then
/// free to insert it, and afterwards the code resolves to the created URL.
pub proof fn lemma_negative_lookup(
    cache: UrlMap,
    store: UrlMap,
    code: Seq<char>,
    p: PendingCreate,
    r: CreateStep,
    after: UrlMap,
)
    requires
        coherent(cache, store),
        answers(store, code, StoreLookup::Missing),
        p.short_code@ == code,
        create_step_ok(p, InsertOutcome::Inserted, r, cache_after_lookup(cache, code, StoreLookup::Missing), after),
    ensures
        lookup_result(StoreLookup::Missing) == Err::<Seq<char>, ResolveError>(ResolveError::NotFound),
        cache_after_lookup(cache, code, StoreLookup::Missing) == cache,
        !cache.contains_key(code),
        !store.contains_key(code),
        after.contains_key(code),
        after[code] == p.long_url@,
        coherent(after, store.insert(code, p.long_url@)),
{
}

} // verus!
