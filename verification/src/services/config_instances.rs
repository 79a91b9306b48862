//! Reading the config instance deployed for a schema: finding the schema, deciding
//! whether to sync first, and reading the instance and its data from the caches.

use vstd::prelude::*;
use crate::cache::entry::CacheEntry;
use crate::cache::errors::CacheErr;
use crate::cache::file::{
    found_at_most_one, key_not_found_msg, spec_read, spec_after_read, value_decisions, values_of,
    SingleThreadFileCache,
};
use crate::cache::table::select;
use crate::crud::config_instance::{
    matches_config_schema_and_activity_status, spec_matches_config_schema_and_activity_status,
};
use crate::crud::config_schema::{
    matches_config_type_slug_and_schema_digest, spec_matches_config_type_slug_and_schema_digest,
};
use crate::errors::MiruError;
use crate::http::config_schemas::{ConfigSchemaFilters, ConfigTypeSlugFilter, DigestFilter};
use crate::http::errors::HTTPErr;
use crate::http::search::{texts, SearchOperator};
use crate::models::config_instance::{ActivityStatus, ConfigInstance};
use crate::models::config_schema::ConfigSchema;
use crate::sync::errors::SyncErr;
use crate::services::errors::{
    ConfigSchemaNotFound, DeployedConfigInstanceNotFound, ServiceCrudErr, ServiceErr, ServiceHTTPErr,
};

verus! {

/// What a request for the deployed config instance names: the device, the config type
/// and the schema's digest.
#[derive(Debug, Clone, PartialEq, Eq)]
pub struct ReadDeployedArgs {
    pub device_id: String,
    pub config_type_slug: String,
    pub config_schema_digest: String,
}

// ============================== THE SCHEMA ======================================= //
/// Which cached schemas have the slug and the digest.
pub open spec fn schema_flags(s: Seq<CacheEntry<ConfigSchema>>, slug: Seq<char>, digest: Seq<char>) -> Seq<bool> {
    s.map_values(|e: CacheEntry<ConfigSchema>| spec_matches_config_type_slug_and_schema_digest(e.value, slug, digest))
}

/// The name of the schema search, as errors report it.
pub open spec fn schema_filter_name() -> Seq<char> {
    "filter by config type slug and schema digest"@
}

/// The identifier of the cached schema with the slug and the digest, if any; an error
/// when several match.
pub fn schema_id_from_cache(cache: &SingleThreadFileCache<ConfigSchema>, args: &ReadDeployedArgs) -> (r: Result<
    Option<String>,
    ServiceErr,
>)
    ensures
        ({
            let m = values_of(select(cache@, schema_flags(cache@, args.config_type_slug@, args.config_schema_digest@)));
            &&& m.len() == 0 ==> (r matches Ok(None))
            &&& m.len() == 1 ==> (r matches Ok(Some(id)) && id == m[0].id)
            &&& m.len() > 1 ==> (r matches Err(ServiceErr::CrudErr(e)) && e.source is FoundTooManyCacheElements)
        }),
{
    let digest = args.config_schema_digest.clone();
    let config_type_slug = args.config_type_slug.clone();
    let filter = move |cfg_sch: &ConfigSchema| -> (b: bool)
        ensures
            b == spec_matches_config_type_slug_and_schema_digest(*cfg_sch, config_type_slug@, digest@),
        { matches_config_type_slug_and_schema_digest(cfg_sch, config_type_slug.as_str(), digest.as_str()) };
    let result = cache.find_one_optional("filter by config type slug and schema digest", filter);
    proof {
        reveal_strlit("filter by config type slug and schema digest");
        let d = choose|d: Seq<bool>|
            value_decisions(filter, cache@, d) && found_at_most_one(values_of(select(cache@, d)), result, schema_filter_name());
        assert(d =~= schema_flags(cache@, args.config_type_slug@, args.config_schema_digest@));
    }
    match result {
        Ok(Some(cfg_schema)) => Ok(Some(cfg_schema.id)),
        Ok(None) => Ok(None),
        Err(e) => Err(ServiceErr::CrudErr(ServiceCrudErr { source: e })),
    }
}

/// The backend search for the schema: exactly its digest and exactly its slug.
pub open spec fn is_schema_search(r: ConfigSchemaFilters, args: ReadDeployedArgs) -> bool {
    &&& r.digests matches Some(f) && !f.not && f.op == SearchOperator::Equals && texts(f.val@) == seq![
        args.config_schema_digest@,
    ]
    &&& r.config_type_slugs matches Some(f) && !f.not && f.op == SearchOperator::Equals && texts(f.val@) == seq![
        args.config_type_slug@,
    ]
}

/// The filters of the backend search for the schema: its digest and its slug.
pub fn schema_filters(args: &ReadDeployedArgs) -> (r: ConfigSchemaFilters)
    ensures
        is_schema_search(r, *args),
{
    let mut digests: Vec<String> = Vec::new();
    digests.push(args.config_schema_digest.clone());
    let mut slugs: Vec<String> = Vec::new();
    slugs.push(args.config_type_slug.clone());
    proof {
        assert(texts(digests@) =~= seq![args.config_schema_digest@]);
        assert(texts(slugs@) =~= seq![args.config_type_slug@]);
    }
    ConfigSchemaFilters {
        digests: Some(DigestFilter { not: false, op: SearchOperator::Equals, val: digests }),
        config_type_slugs: Some(ConfigTypeSlugFilter { not: false, op: SearchOperator::Equals, val: slugs }),
    }
}

/// The schema's identifier from the backend's answer: a lost connection reads as "not
/// found (network)", any other failure is passed on.
pub fn schema_id_from_backend(result: Result<ConfigSchema, HTTPErr>, args: &ReadDeployedArgs) -> (r: Result<
    String,
    ServiceErr,
>)
    ensures
        match result {
            Ok(s) => r == Ok::<String, ServiceErr>(s.id),
            Err(e) => if e.spec_is_network_connection_error() {
                r matches Err(ServiceErr::ConfigSchemaNotFound(n)) && n.config_type_slug == args.config_type_slug
                    && n.config_schema_digest == args.config_schema_digest && n.network_connection_error
            } else {
                r matches Err(ServiceErr::HTTPErr(h)) && h.source == e
            },
        },
{
    match result {
        Ok(cfg_schema) => Ok(cfg_schema.id),
        Err(e) => {
            if e.is_network_connection_error() {
                Err(
                    ServiceErr::ConfigSchemaNotFound(
                        ConfigSchemaNotFound {
                            config_type_slug: args.config_type_slug.clone(),
                            config_schema_digest: args.config_schema_digest.clone(),
                            network_connection_error: true,
                        },
                    ),
                )
            } else {
                Err(ServiceErr::HTTPErr(ServiceHTTPErr { source: e }))
            }
        },
    }
}

/// Where the schema's identifier comes from: the cache answered, or the backend must be
/// searched with the given filters.
#[derive(Debug)]
pub enum SchemaIdLookup {
    Answered(Result<String, ServiceErr>),
    AskBackend(ConfigSchemaFilters),
}

/// The schema's identifier from the cache; the backend is searched only when no cached
/// schema has the slug and the digest.
pub fn fetch_config_schema_id(cache: &SingleThreadFileCache<ConfigSchema>, args: &ReadDeployedArgs) -> (r:
    SchemaIdLookup)
    ensures
        ({
            let m = values_of(select(cache@, schema_flags(cache@, args.config_type_slug@, args.config_schema_digest@)));
            &&& m.len() == 0 ==> (r matches SchemaIdLookup::AskBackend(f) && is_schema_search(f, *args))
            &&& m.len() == 1 ==> (r matches SchemaIdLookup::Answered(Ok(id)) && id == m[0].id)
            &&& m.len() > 1 ==> (r matches SchemaIdLookup::Answered(Err(ServiceErr::CrudErr(e)))
                && e.source is FoundTooManyCacheElements)
        }),
{
    match schema_id_from_cache(cache, args) {
        Ok(Some(id)) => SchemaIdLookup::Answered(Ok(id)),
        Ok(None) => SchemaIdLookup::AskBackend(schema_filters(args)),
        Err(e) => SchemaIdLookup::Answered(Err(e)),
    }
}

// ============================== SYNC FIRST? ====================================== //
/// Whether to sync with the backend before reading: not when the last sync was less
/// than five seconds before `now`.
pub fn should_sync_before_read(last_synced_at: i64, now: i64) -> (r: bool)
    ensures
        r == !(last_synced_at > now - 5000),
{
    !(last_synced_at as i128 > now as i128 - 5000)
}

// ============================ THE DEPLOYED INSTANCE ============================== //
/// Which cached instances are the deployed ones of the schema.
pub open spec fn deployed_flags(s: Seq<CacheEntry<ConfigInstance>>, config_schema_id: Seq<char>) -> Seq<bool> {
    s.map_values(
        |e: CacheEntry<ConfigInstance>|
            spec_matches_config_schema_and_activity_status(e.value, config_schema_id, ActivityStatus::Deployed),
    )
}

/// The read of the deployed instance of the schema `config_schema_id` from the
/// instance cache `insts` and the data cache (`before` and `after` the read) at `now`:
/// an error when none is deployed or several are, else the instance with its data,
/// read (and marked accessed) from the data cache, or an error where the data is missing.
pub open spec fn deployed_read(
    insts: Seq<CacheEntry<ConfigInstance>>,
    before: Seq<CacheEntry<String>>,
    after: Seq<CacheEntry<String>>,
    config_schema_id: Seq<char>,
    args: ReadDeployedArgs,
    now: i64,
    r: Result<(ConfigInstance, String), ServiceErr>,
) -> bool {
    let m = values_of(select(insts, deployed_flags(insts, config_schema_id)));
    &&& m.len() == 0 ==> {
        &&& r matches Err(ServiceErr::DeployedConfigInstanceNotFound(e))
        &&& e.config_schema_id@ == config_schema_id
        &&& e.config_type_slug == args.config_type_slug
        &&& e.config_schema_digest == args.config_schema_digest
        &&& !e.network_connection_error
        &&& after == before
    }
    &&& m.len() > 1 ==> {
        &&& r matches Err(ServiceErr::CrudErr(e))
        &&& e.source is FoundTooManyCacheElements
        &&& after == before
    }
    &&& m.len() == 1 ==> {
        &&& after == spec_after_read(before, m[0].id@, true, now)
        &&& match spec_read(before, m[0].id@, true, now) {
            Some(d) => r == Ok::<(ConfigInstance, String), ServiceErr>((m[0], d.value)),
            None => (r matches Err(ServiceErr::CrudErr(e)) && e.source matches CacheErr::CacheElementNotFound(n)
                && n.msg@ == key_not_found_msg(m[0].id@)),
        }
    }
}

/// The deployed instance of the schema and its data, from the caches at `now`. It is an
/// error when none is deployed, when several are, or when its data is missing.
pub fn read_deployed_from_caches(
    cfg_inst_cache: &SingleThreadFileCache<ConfigInstance>,
    cfg_inst_data_cache: &mut SingleThreadFileCache<String>,
    config_schema_id: &str,
    args: &ReadDeployedArgs,
    now: i64,
) -> (r: Result<(ConfigInstance, String), ServiceErr>)
    ensures
        deployed_read(
            cfg_inst_cache@,
            old(cfg_inst_data_cache)@,
            final(cfg_inst_data_cache)@,
            config_schema_id@,
            *args,
            now,
            r,
        ),
{
    // read the config instance metadata from the cache
    let config_schema_id_owned = config_schema_id.to_string();
    let filter = move |cfg_inst: &ConfigInstance| -> (b: bool)
        ensures
            b == spec_matches_config_schema_and_activity_status(*cfg_inst, config_schema_id_owned@, ActivityStatus::Deployed),
        { matches_config_schema_and_activity_status(cfg_inst, config_schema_id_owned.as_str(), ActivityStatus::Deployed) };
    let result = cfg_inst_cache.find_one_optional("filter by config schema and activity status", filter);
    proof {
        let d = choose|d: Seq<bool>|
            value_decisions(filter, cfg_inst_cache@, d) && found_at_most_one(
                values_of(select(cfg_inst_cache@, d)),
                result,
                "filter by config schema and activity status"@,
            );
        assert(d =~= deployed_flags(cfg_inst_cache@, config_schema_id@));
    }
    let result = match result {
        Ok(metadata) => metadata,
        Err(e) => {
            // the cache is local, so its errors are never lost connections
            if e.is_network_connection_error() {
                return Err(
                    ServiceErr::DeployedConfigInstanceNotFound(
                        DeployedConfigInstanceNotFound {
                            config_schema_id: config_schema_id.to_string(),
                            config_type_slug: args.config_type_slug.clone(),
                            config_schema_digest: args.config_schema_digest.clone(),
                            network_connection_error: true,
                        },
                    ),
                );
            } else {
                return Err(ServiceErr::CrudErr(ServiceCrudErr { source: e }));
            }
        },
    };
    // without the metadata, the deployed config instance does not exist (or the backend
    // could not be reached to learn of it)
    let metadata = match result {
        Some(metadata) => metadata,
        None => {
            return Err(
                ServiceErr::DeployedConfigInstanceNotFound(
                    DeployedConfigInstanceNotFound {
                        config_schema_id: config_schema_id.to_string(),
                        config_type_slug: args.config_type_slug.clone(),
                        config_schema_digest: args.config_schema_digest.clone(),
                        network_connection_error: false,
                    },
                ),
            );
        },
    };
    // the data must exist when the metadata does
    let data = match cfg_inst_data_cache.read(metadata.id.as_str(), now) {
        Ok(data) => data,
        Err(e) => return Err(ServiceErr::CrudErr(ServiceCrudErr { source: e })),
    };
    Ok((metadata, data))
}

/// The deployed instance for a request, once the schema's identifier is known and the
/// sync that precedes the read is over: a failed lookup of the schema is the answer;
/// otherwise the caches are read at `now`, whatever the sync's outcome was (a failed
/// sync leaves the caches as they were, and the read goes on from them).
pub fn read_deployed(
    cfg_inst_cache: &SingleThreadFileCache<ConfigInstance>,
    cfg_inst_data_cache: &mut SingleThreadFileCache<String>,
    config_schema_id: Result<String, ServiceErr>,
    _sync_result: &Result<(), SyncErr>,
    args: &ReadDeployedArgs,
    now: i64,
) -> (r: Result<(ConfigInstance, String), ServiceErr>)
    ensures
        match config_schema_id {
            Err(e) => (r matches Err(x) && x == e) && final(cfg_inst_data_cache)@ == old(cfg_inst_data_cache)@,
            Ok(id) => deployed_read(
                cfg_inst_cache@,
                old(cfg_inst_data_cache)@,
                final(cfg_inst_data_cache)@,
                id@,
                *args,
                now,
                r,
            ),
        },
{
    let config_schema_id = match config_schema_id {
        Ok(id) => id,
        Err(e) => return Err(e),
    };
    read_deployed_from_caches(cfg_inst_cache, cfg_inst_data_cache, config_schema_id.as_str(), args, now)
}

} // verus!
