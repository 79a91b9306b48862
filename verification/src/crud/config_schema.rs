//! Queries over cached config schemas.

use vstd::prelude::*;
use crate::models::config_schema::ConfigSchema;
use crate::strings::str_eq;

verus! {

/// The schema has the digest and belongs to the config type with the slug.
pub open spec fn spec_matches_config_type_slug_and_schema_digest(
    instance: ConfigSchema,
    config_type_slug: Seq<char>,
    config_schema_digest: Seq<char>,
) -> bool {
    match instance.config_type_slug {
        Some(slug) => instance.digest@ == config_schema_digest && slug@ == config_type_slug,
        None => false,
    }
}

pub fn matches_config_type_slug_and_schema_digest(
    instance: &ConfigSchema,
    config_type_slug: &str,
    config_schema_digest: &str,
) -> (r: bool)
    ensures
        r == spec_matches_config_type_slug_and_schema_digest(*instance, config_type_slug@, config_schema_digest@),
{
    let instance_slug = match &instance.config_type_slug {
        Some(config_type_slug) => config_type_slug,
        None => return false,
    };
    str_eq(instance.digest.as_str(), config_schema_digest) && str_eq(instance_slug.as_str(), config_type_slug)
}

} // verus!
