//! The agent's own record: which device it serves, whether it is activated, where its
//! backend is, how much it logs and where it deploys config instances.

use vstd::prelude::*;
use crate::logs::LogLevel;
use crate::models::device::placeholder;

verus! {

#[derive(Debug, Clone, PartialEq, Eq)]
pub struct Agent {
    pub device_id: String,
    pub activated: bool,
    pub backend_base_url: String,
    pub log_level: LogLevel,
    pub config_instance_deployment_base_path: String,
}

/// The backend the agent talks to unless its record names another.
pub open spec fn default_backend_base_url() -> Seq<char> {
    "https://configs.api.miruml.com/agent/v1"@
}

/// The directory config instances are deployed to unless the record names another.
pub open spec fn default_deployment_base_path() -> Seq<char> {
    "/srv/miru/configs/"@
}

impl Default for Agent {
    fn default() -> (r: Self)
        ensures
            r.device_id@ == placeholder(),
            !r.activated,
            r.backend_base_url@ == default_backend_base_url(),
            r.log_level == LogLevel::Info,
            r.config_instance_deployment_base_path@ == default_deployment_base_path(),
    {
        proof {
            reveal_strlit("placeholder");
            reveal_strlit("https://configs.api.miruml.com/agent/v1");
            reveal_strlit("/srv/miru/configs/");
        }
        Self {
            device_id: "placeholder".to_string(),
            activated: false,
            backend_base_url: "https://configs.api.miruml.com/agent/v1".to_string(),
            log_level: LogLevel::Info,
            config_instance_deployment_base_path: "/srv/miru/configs/".to_string(),
        }
    }
}

/// A stored agent record as read from its JSON form, before the fields it lacks are
/// filled in.
#[derive(Debug)]
pub struct DeserializedAgent {
    pub device_id: String,
    pub activated: Option<bool>,
    pub backend_base_url: Option<String>,
    pub log_level: Option<LogLevel>,
    pub config_instance_deployment_base_path: Option<String>,
}

impl Agent {
    /// The stored record read from JSON: a missing activation flag reads as not
    /// activated, and every other missing field takes its default.
    pub fn from_deserialized(d: DeserializedAgent) -> (r: Agent)
        ensures
            r.device_id == d.device_id,
            r.activated == (match d.activated {
                Some(a) => a,
                None => false,
            }),
            r.backend_base_url@ == (match d.backend_base_url {
                Some(u) => u@,
                None => default_backend_base_url(),
            }),
            r.log_level == (match d.log_level {
                Some(l) => l,
                None => LogLevel::Info,
            }),
            r.config_instance_deployment_base_path@ == (match d.config_instance_deployment_base_path {
                Some(p) => p@,
                None => default_deployment_base_path(),
            }),
    {
        let default = Agent::default();
        Agent {
            device_id: d.device_id,
            activated: match d.activated {
                Some(a) => a,
                None => default.activated,
            },
            backend_base_url: match d.backend_base_url {
                Some(u) => u,
                None => default.backend_base_url,
            },
            log_level: match d.log_level {
                Some(l) => l,
                None => default.log_level,
            },
            config_instance_deployment_base_path: match d.config_instance_deployment_base_path {
                Some(p) => p,
                None => default.config_instance_deployment_base_path,
            },
        }
    }
}

} // verus!
