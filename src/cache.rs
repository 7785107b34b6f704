//! The resolution cache: a concurrent map from short code to long URL.
use dashmap::DashMap;
use std::hash::RandomState;
use vstd::prelude::*;

verus! {

#[verifier::external_type_specification]
#[verifier::external_body]
#[verifier::reject_recursive_types(K)]
#[verifier::reject_recursive_types(V)]
#[verifier::reject_recursive_types(S)]
pub struct ExDashMap<K, V, S>(DashMap<K, V, S>);

/// What a `DashMap` of strings holds, as a map from key text to value text.
pub uninterp spec fn dash_entries(m: DashMap<String, String, RandomState>) -> Map<Seq<char>, Seq<char>>;

/// Relies on `DashMap::new`: a new map holds no entry.
#[verifier::external_body]
fn dash_new() -> (r: DashMap<String, String, RandomState>)
    ensures
        dash_entries(r) =~= Map::empty(),
{
    DashMap::new()
}

/// Relies on `DashMap::get`: the value stored under a key equal to `key`, if any,
/// handed out as a copy of the string.
#[verifier::external_body]
fn dash_get(m: &DashMap<String, String, RandomState>, key: &str) -> (r: Option<String>)
    ensures
        (r is Some) <==> dash_entries(*m).contains_key(key@),
        (r is Some) ==> r->0@ == dash_entries(*m)[key@],
{
    m.get(key).map(|v| v.value().clone())
}

/// Relies on `DashMap::insert`: the key now maps to the value, every other key
/// keeps its entry.
#[verifier::external_body]
fn dash_insert(m: &mut DashMap<String, String, RandomState>, key: String, value: String)
    ensures
        dash_entries(*final(m)) == dash_entries(*old(m)).insert(key@, value@),
{
    m.insert(key, value);
}

/// Cache of resolved short codes. Entries are never evicted.
pub struct CacheService {
    cache: DashMap<String, String, RandomState>,
}

impl View for CacheService {
    type V = Map<Seq<char>, Seq<char>>;

    closed spec fn view(&self) -> Map<Seq<char>, Seq<char>> {
        dash_entries(self.cache)
    }
}

impl CacheService {
    /// An empty cache.
    pub fn new() -> (r: CacheService)
        ensures
            r@ =~= Map::empty(),
    {
        CacheService { cache: dash_new() }
    }

    /// The long URL cached for `key`, or `None` when the code is not cached.
    pub fn get(&self, key: &str) -> (r: Option<String>)
        ensures
            (r is Some) <==> self@.contains_key(key@),
            (r is Some) ==> r->0@ == self@[key@],
    {
        dash_get(&self.cache, key)
    }

    /// Caches `value` under `key`, replacing any earlier entry for it.
    pub fn set(&mut self, key: String, value: String)
        ensures
            final(self)@ == old(self)@.insert(key@, value@),
    {
        dash_insert(&mut self.cache, key, value);
    }
}

impl Default for CacheService {
    fn default() -> (r: CacheService)
        ensures
            r@ =~= Map::empty(),
    {
        CacheService::new()
    }
}

} // verus!
