//! Decisions of the create and resolve paths. The store calls themselves are
//! made by the caller, which hands each answer back here.
use crate::cache::CacheService;
use crate::code::{generate, is_short_code};
use crate::url::{url_accepted, ShortenRequest};
use vstd::prelude::*;

verus! {

/// Number of inserts a create tries before giving up on finding a free code.
pub const MAX_ATTEMPTS: u32 = 5;

/// Short code to long URL, as text.
pub type UrlMap = Map<Seq<char>, Seq<char>>;

/// Why a create failed.
#[derive(Debug, PartialEq, Eq, Structural, Clone, Copy)]
pub enum CreateError {
    /// The long URL is not a well-formed URL.
    InvalidUrl,
    /// Every attempt hit a code that the store already holds.
    CodeSpaceExhausted,
    /// The store failed for another reason.
    StoreError,
}

/// Why a resolve failed.
#[derive(Debug, PartialEq, Eq, Structural, Clone, Copy)]
pub enum ResolveError {
    /// No record has this short code.
    NotFound,
    /// The store failed.
    StoreError,
}

/// The store's answer to an insert of a record.
#[derive(Debug, PartialEq, Eq, Structural, Clone, Copy)]
pub enum InsertOutcome {
    Inserted,
    UniqueViolation,
    Failed,
}

/// The store's answer to a lookup by short code.
pub enum StoreLookup {
    Found(String),
    Missing,
    Failed,
}

/// A create in progress: the record to insert next, and which attempt that is.
pub struct PendingCreate {
    pub long_url: String,
    pub short_code: String,
    pub attempt: u32,
}

/// What a create does next.
pub enum CreateStep {
    /// Insert the pending record into the store.
    Insert(PendingCreate),
    /// The record is stored and cached; this is its code.
    Created(String),
    Failed(CreateError),
}

/// What a resolve does first.
pub enum ResolveStep {
    /// The cache holds the code: this is its long URL, no store access needed.
    Hit(String),
    /// The cache misses: look the code up in the store.
    QueryStore,
}

impl PendingCreate {
    pub open spec fn wf(&self) -> bool {
        1 <= self.attempt <= MAX_ATTEMPTS
    }

    /// Starts a create for `long_url` with a freshly generated code.
    pub fn begin(long_url: String) -> (r: Result<PendingCreate, CreateError>)
        ensures
            (r is Ok) <==> url_accepted(long_url@),
            (r is Err) ==> r->Err_0 == CreateError::InvalidUrl,
            (r is Ok) ==> r->Ok_0.wf() && r->Ok_0.attempt == 1 && r->Ok_0.long_url@ == long_url@
                && is_short_code(r->Ok_0.short_code@),
    {
        let code = generate();
        PendingCreate::begin_with_code(long_url, code)
    }

    /// Starts a create for `long_url` whose first insert uses `code`.
    pub fn begin_with_code(long_url: String, code: String) -> (r: Result<PendingCreate, CreateError>)
        ensures
            (r is Ok) <==> url_accepted(long_url@),
            (r is Err) ==> r->Err_0 == CreateError::InvalidUrl,
            (r is Ok) ==> r->Ok_0.wf() && r->Ok_0.attempt == 1 && r->Ok_0.long_url@ == long_url@
                && r->Ok_0.short_code@ == code@,
    {
        let req = ShortenRequest { url: long_url };
        if req.validate() {
            Ok(PendingCreate { long_url: req.url, short_code: code, attempt: 1 })
        } else {
            Err(CreateError::InvalidUrl)
        }
    }

    /// Takes the store's answer to inserting this record. On a clash of codes a
    /// fresh code is generated for the next attempt.
    pub fn after_insert(self, outcome: InsertOutcome, cache: &mut CacheService) -> (r: CreateStep)
        requires
            self.wf(),
        ensures
            create_step_ok(self, outcome, r, old(cache)@, final(cache)@),
            (r is Insert) ==> is_short_code(r->Insert_0.short_code@),
    {
        let fresh = generate();
        self.after_insert_with_code(outcome, fresh, cache)
    }

    /// Takes the store's answer to inserting this record; `fresh` is the code
    /// to try next should the store report a clash.
    pub fn after_insert_with_code(
        self,
        outcome: InsertOutcome,
        fresh: String,
        cache: &mut CacheService,
    ) -> (r: CreateStep)
        requires
            self.wf(),
        ensures
            create_step_ok(self, outcome, r, old(cache)@, final(cache)@),
            (r is Insert) ==> r->Insert_0.short_code@ == fresh@,
    {
        match outcome {
            InsertOutcome::Inserted => {
                let code = self.short_code.clone();
                cache.set(self.short_code, self.long_url);
                CreateStep::Created(code)
            },
            InsertOutcome::UniqueViolation => {
                if self.attempt < MAX_ATTEMPTS {
                    CreateStep::Insert(
                        PendingCreate {
                            long_url: self.long_url,
                            short_code: fresh,
                            attempt: self.attempt + 1,
                        },
                    )
                } else {
                    CreateStep::Failed(CreateError::CodeSpaceExhausted)
                }
            },
            InsertOutcome::Failed => CreateStep::Failed(CreateError::StoreError),
        }
    }
}

/// The step a create takes from `p` given the store's `outcome`, with the
/// cache going from `before` to `after`. Only a successful insert touches the
/// cache; a clash retries with the same URL until `MAX_ATTEMPTS` inserts failed.
pub open spec fn create_step_ok(
    p: PendingCreate,
    outcome: InsertOutcome,
    r: CreateStep,
    before: UrlMap,
    after: UrlMap,
) -> bool {
    match outcome {
        InsertOutcome::Inserted => {
            &&& r is Created
            &&& r->Created_0@ == p.short_code@
            &&& after == before.insert(p.short_code@, p.long_url@)
        },
        InsertOutcome::UniqueViolation => {
            &&& after == before
            &&& if p.attempt < MAX_ATTEMPTS {
                &&& r is Insert
                &&& r->Insert_0.wf()
                &&& r->Insert_0.attempt == p.attempt + 1
                &&& r->Insert_0.long_url@ == p.long_url@
            } else {
                r == CreateStep::Failed(CreateError::CodeSpaceExhausted)
            }
        },
        InsertOutcome::Failed => {
            &&& after == before
            &&& r == CreateStep::Failed(CreateError::StoreError)
        },
    }
}

/// The result a resolve returns once the store has answered `lookup`.
pub open spec fn lookup_result(lookup: StoreLookup) -> Result<Seq<char>, ResolveError> {
    match lookup {
        StoreLookup::Found(u) => Ok(u@),
        StoreLookup::Missing => Err(ResolveError::NotFound),
        StoreLookup::Failed => Err(ResolveError::StoreError),
    }
}

/// The cache after the store answered `lookup` for `code`: a found URL is
/// cached, nothing else is (no negative entries).
pub open spec fn cache_after_lookup(cache: UrlMap, code: Seq<char>, lookup: StoreLookup) -> UrlMap {
    match lookup {
        StoreLookup::Found(u) => cache.insert(code, u@),
        _ => cache,
    }
}

/// The view of a resolve result, with the URL as text.
pub open spec fn resolve_view(r: Result<String, ResolveError>) -> Result<Seq<char>, ResolveError> {
    match r {
        Ok(u) => Ok(u@),
        Err(e) => Err(e),
    }
}

/// First step of a resolve: the cache alone.
pub fn begin_resolve(cache: &CacheService, code: &str) -> (r: ResolveStep)
    ensures
        (r is Hit) <==> cache@.contains_key(code@),
        (r is Hit) ==> r->Hit_0@ == cache@[code@],
{
    match cache.get(code) {
        Some(u) => ResolveStep::Hit(u),
        None => ResolveStep::QueryStore,
    }
}

/// Second step of a resolve, after a cache miss: takes the store's answer,
/// caches a found URL and returns it.
pub fn finish_resolve(cache: &mut CacheService, code: String, lookup: StoreLookup) -> (r: Result<String, ResolveError>)
    ensures
        resolve_view(r) == lookup_result(lookup),
        final(cache)@ == cache_after_lookup(old(cache)@, code@, lookup),
{
    match lookup {
        StoreLookup::Found(u) => {
            let out = u.clone();
            cache.set(code, u);
            Ok(out)
        },
        StoreLookup::Missing => Err(ResolveError::NotFound),
        StoreLookup::Failed => Err(ResolveError::StoreError),
    }
}

} // verus!
