//! Hashing config schemas: the backend resolves a schema to its digest, and the agent
//! remembers the answer by the digest of the raw schema.

use vstd::prelude::*;
use crate::cache::entry::CacheValue;
use crate::cache::file::{spec_after_read, spec_read, SingleThreadFileCache};
use crate::http::errors::HTTPErr;
use crate::services::errors::{ServiceErr, ServiceHTTPErr};
use crate::sync::pull::{spec_store, store_clean};

verus! {

/// The digest of a schema as written and of the schema it resolves to.
#[derive(Debug, Clone, PartialEq, Eq)]
pub struct ConfigSchemaDigests {
    pub raw: String,
    pub resolved: String,
}

impl CacheValue for ConfigSchemaDigests {
    fn duplicate(&self) -> (r: ConfigSchemaDigests)
        ensures
            r == *self,
    {
        ConfigSchemaDigests { raw: self.raw.clone(), resolved: self.resolved.clone() }
    }
}

/// The resolved digest remembered for the raw digest, if any, read at `now`.
pub fn cached_resolved_digest(cache: &mut SingleThreadFileCache<ConfigSchemaDigests>, raw_digest: &str, now: i64) -> (r:
    Option<String>)
    ensures
        r == (match spec_read(old(cache)@, raw_digest@, true, now) {
            Some(e) => Some(e.value.resolved),
            None => None,
        }),
        final(cache)@ == spec_after_read(old(cache)@, raw_digest@, true, now),
{
    match cache.read_optional(raw_digest, now) {
        Ok(Some(digests)) => Some(digests.resolved),
        _ => None,
    }
}

/// What hashing a schema takes: the cache knew the resolved digest, or the backend must
/// be asked to resolve the schema.
#[derive(Debug, Clone, PartialEq, Eq)]
pub enum HashSchemaLookup {
    Resolved(String),
    AskBackend,
}

/// The first step of hashing a schema whose raw digest is `raw_digest`: the resolved
/// digest remembered for it, read at `now`; the backend is asked only when none is.
pub fn hash_schema(cache: &mut SingleThreadFileCache<ConfigSchemaDigests>, raw_digest: &str, now: i64) -> (r:
    HashSchemaLookup)
    ensures
        r == (match spec_read(old(cache)@, raw_digest@, true, now) {
            Some(e) => HashSchemaLookup::Resolved(e.value.resolved),
            None => HashSchemaLookup::AskBackend,
        }),
        final(cache)@ == spec_after_read(old(cache)@, raw_digest@, true, now),
{
    match cached_resolved_digest(cache, raw_digest, now) {
        Some(resolved) => HashSchemaLookup::Resolved(resolved),
        None => HashSchemaLookup::AskBackend,
    }
}

/// Remembers at `now` that the raw digest resolves to `resolved_digest`.
pub fn remember_resolved_digest(
    cache: &mut SingleThreadFileCache<ConfigSchemaDigests>,
    raw_digest: String,
    resolved_digest: String,
    now: i64,
)
    ensures
        final(cache)@ == spec_store(
            old(cache)@,
            raw_digest,
            ConfigSchemaDigests { raw: raw_digest, resolved: resolved_digest },
            now,
        ),
{
    let digests = ConfigSchemaDigests { raw: raw_digest.clone(), resolved: resolved_digest };
    store_clean(cache, raw_digest, digests, now);
}

/// The end of hashing a schema the cache did not know: the backend's resolved digest is
/// remembered at `now` under the raw digest and returned; a failed request is passed on
/// and leaves the cache as it was.
pub fn hash_schema_from_backend(
    cache: &mut SingleThreadFileCache<ConfigSchemaDigests>,
    raw_digest: String,
    result: Result<String, HTTPErr>,
    now: i64,
) -> (r: Result<String, ServiceErr>)
    ensures
        match result {
            Ok(d) => r == Ok::<String, ServiceErr>(d) && final(cache)@ == spec_store(
                old(cache)@,
                raw_digest,
                ConfigSchemaDigests { raw: raw_digest, resolved: d },
                now,
            ),
            Err(e) => (r matches Err(ServiceErr::HTTPErr(h)) && h.source == e) && final(cache)@ == old(cache)@,
        },
{
    match result {
        Ok(resolved) => {
            remember_resolved_digest(cache, raw_digest, resolved.clone(), now);
            Ok(resolved)
        },
        Err(e) => Err(ServiceErr::HTTPErr(ServiceHTTPErr { source: e })),
    }
}

} // verus!
