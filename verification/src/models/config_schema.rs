//! Config schemas: the schema a config instance is validated against, as the agent
//! caches it.

use vstd::prelude::*;
use crate::cache::entry::CacheValue;
use crate::ids::{spec_unknown_id, unknown_id};
use crate::models::config_instance::copy_opt_string;
use crate::time::{format_timestamp, rfc3339_text};

verus! {

pub type ConfigSchemaID = String;

#[derive(Clone, Debug)]
pub struct ConfigSchema {
    pub id: String,
    pub version: i32,
    pub digest: String,
    pub created_at: String,
    pub created_by_id: Option<String>,
    pub config_type_id: String,
    // cache fields
    pub config_type_slug: Option<String>,
}

impl ConfigSchema {
    /// A field-by-field copy, equal to `self`.
    pub fn duplicate(&self) -> (r: ConfigSchema)
        ensures
            r == *self,
    {
        ConfigSchema {
            id: self.id.clone(),
            version: self.version,
            digest: self.digest.clone(),
            created_at: self.created_at.clone(),
            created_by_id: copy_opt_string(&self.created_by_id),
            config_type_id: self.config_type_id.clone(),
            config_type_slug: copy_opt_string(&self.config_type_slug),
        }
    }
}

/// A config schema as it is read from JSON: the creation time may be missing.
pub struct DeserializedConfigSchema {
    pub id: String,
    pub version: i32,
    pub digest: String,
    pub config_type_id: String,
    pub created_at: Option<String>,
    pub created_by_id: Option<String>,
    pub config_type_slug: Option<String>,
}

impl ConfigSchema {
    /// The schema read from JSON: a missing creation time reads as the epoch; every
    /// other field is kept as it was read.
    pub fn from_deserialized(d: DeserializedConfigSchema) -> (r: ConfigSchema)
        ensures
            r.id == d.id,
            r.version == d.version,
            r.digest == d.digest,
            r.config_type_id == d.config_type_id,
            r.created_at@ == (match d.created_at {
                Some(c) => c@,
                None => rfc3339_text(0),
            }),
            r.created_by_id == d.created_by_id,
            r.config_type_slug == d.config_type_slug,
    {
        let created_at = match d.created_at {
            Some(c) => c,
            None => format_timestamp(0),
        };
        ConfigSchema {
            id: d.id,
            version: d.version,
            digest: d.digest,
            created_at,
            created_by_id: d.created_by_id,
            config_type_id: d.config_type_id,
            config_type_slug: d.config_type_slug,
        }
    }
}

impl CacheValue for ConfigSchema {
    fn duplicate(&self) -> (r: ConfigSchema)
        ensures
            r == *self,
    {
        ConfigSchema::duplicate(self)
    }
}

impl ConfigSchema {
    /// A schema with made-up identifiers and digest (`unknown-` and the UUID texts given,
    /// which the caller draws), version -1, created at the epoch.
    pub fn default_with_uuids(id_uuid: &str, digest_uuid: &str, type_uuid: &str) -> (r: Self)
        ensures
            r.id@ == spec_unknown_id(id_uuid@),
            r.version == -1,
            r.digest@ == spec_unknown_id(digest_uuid@),
            r.created_at@ == rfc3339_text(0),
            r.created_by_id is None,
            r.config_type_id@ == spec_unknown_id(type_uuid@),
            r.config_type_slug is None,
    {
        Self {
            id: unknown_id(id_uuid),
            version: -1,
            digest: unknown_id(digest_uuid),
            created_at: format_timestamp(0),
            created_by_id: None,
            config_type_id: unknown_id(type_uuid),
            config_type_slug: None,
        }
    }
}

} // verus!
