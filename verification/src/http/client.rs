//! Where the agent's backend requests go.

use vstd::prelude::*;

verus! {

/// The part of the HTTP client that the request logic reads: the backend's base URL.
#[derive(Debug)]
pub struct HTTPClient {
    pub base_url: String,
}

impl HTTPClient {
    /// The URL of the config instances.
    pub fn config_instances_url(&self) -> (r: String)
        ensures
            r@ == self.base_url@ + "/config_instances"@,
    {
        let mut r = self.base_url.clone();
        r.append("/config_instances");
        proof {
            reveal_strlit("/config_instances");
        }
        r
    }

    /// The URL of one config instance.
    pub fn config_instance_url(&self, config_instance_id: &str) -> (r: String)
        ensures
            r@ == self.base_url@ + "/config_instances"@ + "/"@ + config_instance_id@,
    {
        let mut r = self.config_instances_url();
        r.append("/");
        r.append(config_instance_id);
        proof {
            reveal_strlit("/");
            assert(r@ =~= self.base_url@ + "/config_instances"@ + "/"@ + config_instance_id@);
        }
        r
    }

    /// The URL of the config schemas.
    pub fn config_schemas_url(&self) -> (r: String)
        ensures
            r@ == self.base_url@ + "/config_schemas"@,
    {
        let mut r = self.base_url.clone();
        r.append("/config_schemas");
        proof {
            reveal_strlit("/config_schemas");
        }
        r
    }

    /// The URL that hashes a serialized schema.
    pub fn hash_schema_url(&self) -> (r: String)
        ensures
            r@ == self.base_url@ + "/config_schemas/hash/serialized"@,
    {
        let mut r = self.base_url.clone();
        r.append("/config_schemas/hash/serialized");
        proof {
            reveal_strlit("/config_schemas/hash/serialized");
        }
        r
    }
}

} // verus!
