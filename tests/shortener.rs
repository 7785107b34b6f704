use std::collections::HashMap;
use url_shortener::cache::CacheService;
use url_shortener::code::{generate, CODE_LEN};
use url_shortener::shortener::{
    begin_resolve, finish_resolve, CreateError, CreateStep, InsertOutcome, PendingCreate,
    ResolveError, ResolveStep, StoreLookup, MAX_ATTEMPTS,
};
use url_shortener::url::{ShortenRequest, ShortenResponse};

/// An in-memory store with a unique constraint on codes, counting lookups.
struct MemStore {
    rows: HashMap<String, String>,
    reads: usize,
}

impl MemStore {
    fn new() -> MemStore {
        MemStore { rows: HashMap::new(), reads: 0 }
    }

    fn insert(&mut self, code: &str, url: &str) -> InsertOutcome {
        if self.rows.contains_key(code) {
            InsertOutcome::UniqueViolation
        } else {
            self.rows.insert(code.to_string(), url.to_string());
            InsertOutcome::Inserted
        }
    }

    fn find(&mut self, code: &str) -> StoreLookup {
        self.reads += 1;
        match self.rows.get(code) {
            Some(u) => StoreLookup::Found(u.clone()),
            None => StoreLookup::Missing,
        }
    }
}

fn create(store: &mut MemStore, cache: &mut CacheService, url: &str) -> Result<String, CreateError> {
    let mut p = PendingCreate::begin(url.to_string())?;
    loop {
        let outcome = store.insert(&p.short_code, &p.long_url);
        match p.after_insert(outcome, cache) {
            CreateStep::Insert(next) => p = next,
            CreateStep::Created(code) => return Ok(code),
            CreateStep::Failed(e) => return Err(e),
        }
    }
}

fn resolve(store: &mut MemStore, cache: &mut CacheService, code: &str) -> Result<String, ResolveError> {
    match begin_resolve(cache, code) {
        ResolveStep::Hit(u) => Ok(u),
        ResolveStep::QueryStore => {
            let lookup = store.find(code);
            finish_resolve(cache, code.to_string(), lookup)
        }
    }
}

fn is_safe(c: char) -> bool {
    c.is_ascii_alphanumeric() || c == '_' || c == '-'
}

#[test]
fn create_then_resolve_scenario() {
    let mut store = MemStore::new();
    let mut cache = CacheService::new();
    let c1 = create(&mut store, &mut cache, "https://example.com/a").unwrap();
    assert_eq!(c1.chars().count(), 8);
    assert!(c1.chars().all(is_safe));
    let reads = store.reads;
    assert_eq!(resolve(&mut store, &mut cache, &c1), Ok("https://example.com/a".to_string()));
    assert_eq!(store.reads, reads);
    assert_eq!(
        resolve(&mut store, &mut cache, "zzzzzzzz"),
        Err(ResolveError::NotFound)
    );
}

#[test]
fn round_trip_with_cold_cache() {
    let mut store = MemStore::new();
    let mut cache = CacheService::new();
    let code = create(&mut store, &mut cache, "https://example.com/b").unwrap();
    let mut cold = CacheService::new();
    assert_eq!(resolve(&mut store, &mut cold, &code), Ok("https://example.com/b".to_string()));
    assert_eq!(store.reads, 1);
}

#[test]
fn created_codes_are_distinct() {
    let mut store = MemStore::new();
    let mut cache = CacheService::new();
    let mut seen: Vec<String> = Vec::new();
    for i in 0..50 {
        let code = create(&mut store, &mut cache, &format!("https://example.com/{}", i)).unwrap();
        assert!(!seen.contains(&code));
        seen.push(code);
    }
}

#[test]
fn second_resolve_makes_no_store_access() {
    let mut store = MemStore::new();
    let mut cache = CacheService::new();
    store.insert("abcdefgh", "https://example.com/c");
    assert_eq!(resolve(&mut store, &mut cache, "abcdefgh"), Ok("https://example.com/c".to_string()));
    assert_eq!(store.reads, 1);
    assert_eq!(resolve(&mut store, &mut cache, "abcdefgh"), Ok("https://example.com/c".to_string()));
    assert_eq!(store.reads, 1);
}

#[test]
fn negative_lookup_is_not_cached() {
    let mut store = MemStore::new();
    let mut cache = CacheService::new();
    assert_eq!(resolve(&mut store, &mut cache, "doesnotexist"), Err(ResolveError::NotFound));
    assert_eq!(cache.get("doesnotexist"), None);
    let p = PendingCreate::begin_with_code(
        "https://example.com/d".to_string(),
        "doesnotexist".to_string(),
    )
    .unwrap();
    let outcome = store.insert(&p.short_code, &p.long_url);
    assert_eq!(outcome, InsertOutcome::Inserted);
    match p.after_insert(outcome, &mut cache) {
        CreateStep::Created(code) => assert_eq!(code, "doesnotexist"),
        _ => panic!("insert of a free code must create"),
    }
    assert_eq!(resolve(&mut store, &mut cache, "doesnotexist"), Ok("https://example.com/d".to_string()));
}

#[test]
fn repeated_hits_agree_without_store_access() {
    let mut store = MemStore::new();
    let mut cache = CacheService::new();
    let code = create(&mut store, &mut cache, "https://example.com/e").unwrap();
    for _ in 0..100 {
        match begin_resolve(&cache, &code) {
            ResolveStep::Hit(u) => assert_eq!(u, "https://example.com/e"),
            ResolveStep::QueryStore => panic!("cached code must hit"),
        }
    }
    assert_eq!(store.reads, 0);
}

#[test]
fn clash_retries_with_fresh_code() {
    let mut cache = CacheService::new();
    let p = PendingCreate::begin_with_code("https://example.com/f".to_string(), "taken123".to_string())
        .unwrap();
    match p.after_insert_with_code(InsertOutcome::UniqueViolation, "free1234".to_string(), &mut cache) {
        CreateStep::Insert(next) => {
            assert_eq!(next.short_code, "free1234");
            assert_eq!(next.long_url, "https://example.com/f");
            assert_eq!(next.attempt, 2);
        }
        _ => panic!("a first clash must retry"),
    }
    assert_eq!(cache.get("taken123"), None);
    assert_eq!(cache.get("free1234"), None);
}

#[test]
fn clash_on_every_attempt_exhausts() {
    let mut cache = CacheService::new();
    let mut p = PendingCreate::begin_with_code("https://example.com/g".to_string(), "aaaaaaaa".to_string())
        .unwrap();
    let mut tries: u32 = 1;
    loop {
        match p.after_insert(InsertOutcome::UniqueViolation, &mut cache) {
            CreateStep::Insert(next) => {
                tries += 1;
                p = next;
            }
            CreateStep::Failed(e) => {
                assert_eq!(e, CreateError::CodeSpaceExhausted);
                break;
            }
            CreateStep::Created(_) => panic!("a clash never creates"),
        }
    }
    assert_eq!(tries, MAX_ATTEMPTS);
    assert_eq!(tries, 5);
}

#[test]
fn store_failure_on_insert() {
    let mut cache = CacheService::new();
    let p = PendingCreate::begin_with_code("https://example.com/h".to_string(), "hhhhhhhh".to_string())
        .unwrap();
    match p.after_insert(InsertOutcome::Failed, &mut cache) {
        CreateStep::Failed(e) => assert_eq!(e, CreateError::StoreError),
        _ => panic!("a failed insert must fail"),
    }
    assert_eq!(cache.get("hhhhhhhh"), None);
}

#[test]
fn store_failure_on_lookup() {
    let mut cache = CacheService::new();
    assert_eq!(
        finish_resolve(&mut cache, "abc".to_string(), StoreLookup::Failed),
        Err(ResolveError::StoreError)
    );
    assert_eq!(cache.get("abc"), None);
}

#[test]
fn invalid_url_is_rejected() {
    assert_eq!(
        PendingCreate::begin("not a url".to_string()).err(),
        Some(CreateError::InvalidUrl)
    );
    assert_eq!(PendingCreate::begin(String::new()).err(), Some(CreateError::InvalidUrl));
}

#[test]
fn request_validation() {
    assert!(ShortenRequest { url: "https://example.com/a".to_string() }.validate());
    assert!(!ShortenRequest { url: "example".to_string() }.validate());
}

#[test]
fn generated_codes_are_url_safe() {
    for _ in 0..200 {
        let code = generate();
        assert_eq!(code.chars().count(), CODE_LEN);
        assert_eq!(code.len(), 8);
        assert!(code.chars().all(is_safe));
    }
}

#[test]
fn cache_get_and_overwrite() {
    let mut cache = CacheService::default();
    assert_eq!(cache.get("k"), None);
    cache.set("k".to_string(), "v1".to_string());
    assert_eq!(cache.get("k"), Some("v1".to_string()));
    cache.set("k".to_string(), "v1".to_string());
    assert_eq!(cache.get("k"), Some("v1".to_string()));
    cache.set("j".to_string(), "v2".to_string());
    assert_eq!(cache.get("j"), Some("v2".to_string()));
    assert_eq!(cache.get("k"), Some("v1".to_string()));
}

#[test]
fn short_url_is_formatted() {
    let r = ShortenResponse::for_code("https", "sho.rt", "Ab3_-xyz");
    assert_eq!(r.short_url, "https://sho.rt/Ab3_-xyz");
}
