//! Searching the backend's config schemas.

use vstd::prelude::*;
use crate::http::config_instances::{search_param, spec_search_param};
use crate::http::errors::{ConfigSchemaNotFoundErr, HTTPErr, TooManyConfigSchemasErr};
use crate::http::search::{format_search_clause, spec_search_clause, texts, SearchOperator};
use crate::models::config_schema::ConfigSchema;

verus! {

// ================================ SEARCH FILTERS ================================ //
#[derive(Debug)]
pub struct DigestFilter {
    pub not: bool,
    pub op: SearchOperator,
    pub val: Vec<String>,
}

#[derive(Debug)]
pub struct ConfigTypeSlugFilter {
    pub not: bool,
    pub op: SearchOperator,
    pub val: Vec<String>,
}

#[derive(Debug)]
pub struct ConfigSchemaFilters {
    pub digests: Option<DigestFilter>,
    pub config_type_slugs: Option<ConfigTypeSlugFilter>,
}

/// The clauses of a config schema search: the digests, then the config type slugs,
/// each compared for equality.
pub open spec fn spec_schema_clauses(f: ConfigSchemaFilters) -> Seq<Seq<char>> {
    (match f.digests {
        Some(x) => seq![spec_search_clause("digest"@, SearchOperator::Equals, texts(x.val@), x.not)],
        None => Seq::empty(),
    }) + (match f.config_type_slugs {
        Some(x) => seq![spec_search_clause("config_type_slug"@, SearchOperator::Equals, texts(x.val@), x.not)],
        None => Seq::empty(),
    })
}

/// The search parameter for a config schema search; none without filters.
pub fn build_search_query(filters: &ConfigSchemaFilters) -> (r: Option<String>)
    ensures
        r matches Some(q) ==> spec_search_param(spec_schema_clauses(*filters)) == Some(q@),
        r is None ==> spec_search_param(spec_schema_clauses(*filters)) is None,
{
    let mut clauses: Vec<String> = Vec::new();
    if let Some(digests) = &filters.digests {
        clauses.push(format_search_clause("digest", SearchOperator::Equals, &digests.val, digests.not));
    }
    if let Some(config_type_slugs) = &filters.config_type_slugs {
        clauses.push(format_search_clause("config_type_slug", SearchOperator::Equals, &config_type_slugs.val, config_type_slugs.not));
    }
    proof {
        assert(texts(clauses@) =~= spec_schema_clauses(*filters));
    }
    search_param(&clauses)
}

/// The identifiers of the schemas.
pub open spec fn schema_ids(s: Seq<ConfigSchema>) -> Seq<Seq<char>> {
    s.map_values(|c: ConfigSchema| c.id@)
}

/// The one schema a search for one schema found: an error when it found several or
/// none.
pub fn pick_one_config_schema(query_params: String, cfg_schemas: Vec<ConfigSchema>) -> (r: Result<ConfigSchema, HTTPErr>)
    ensures
        cfg_schemas@.len() == 1 ==> r == Ok::<ConfigSchema, HTTPErr>(cfg_schemas@[0]),
        cfg_schemas@.len() == 0 ==> (r matches Err(HTTPErr::ConfigSchemaNotFound(e)) && e.query_params == query_params),
        cfg_schemas@.len() > 1 ==> (r matches Err(HTTPErr::TooManyConfigSchemas(e)) && e.expected_count == 1
            && texts(e.found_config_schema_ids@) == schema_ids(cfg_schemas@) && e.query_params == query_params),
{
    // check that there is only one config schema
    if cfg_schemas.len() > 1 {
        let mut ids: Vec<String> = Vec::new();
        let mut i: usize = 0;
        while i < cfg_schemas.len()
            invariant
                0 <= i <= cfg_schemas@.len(),
                texts(ids@) == schema_ids(cfg_schemas@.take(i as int)),
            decreases cfg_schemas@.len() - i,
        {
            ids.push(cfg_schemas[i].id.clone());
            proof {
                assert(schema_ids(cfg_schemas@.take(i + 1)) =~= schema_ids(cfg_schemas@.take(i as int)).push(
                    cfg_schemas@[i as int].id@,
                ));
                assert(texts(ids@) =~= texts(ids@.drop_last()).push(ids@.last()@));
            }
            i = i + 1;
        }
        proof {
            assert(cfg_schemas@.take(cfg_schemas@.len() as int) =~= cfg_schemas@);
        }
        return Err(
            HTTPErr::TooManyConfigSchemas(
                TooManyConfigSchemasErr { expected_count: 1, found_config_schema_ids: ids, query_params },
            ),
        );
    }
    let mut cfg_schemas = cfg_schemas;
    match cfg_schemas.pop() {
        Some(config_schema) => Ok(config_schema),
        None => Err(HTTPErr::ConfigSchemaNotFound(ConfigSchemaNotFoundErr { query_params })),
    }
}

} // verus!
