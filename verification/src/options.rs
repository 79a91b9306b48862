//! Options of the agent's run, and the decision that ends an idle run. Spans are in
//! milliseconds.

use vstd::prelude::*;
use crate::deploy::fsm::Settings;
use crate::filesys::File;
use crate::storage::caches::CacheSizes;
use crate::storage::layout::{spec_default_root, StorageLayout};

verus! {

/// How long the agent runs.
#[derive(Debug, Clone, Copy, PartialEq, Eq, Structural)]
pub struct LifecycleOptions {
    /// Whether the agent was started on demand by a socket, and so stops when idle.
    pub is_socket_activated: bool,
    pub max_runtime: u64,
    pub idle_timeout: u64,
    pub idle_timeout_poll_interval: u64,
    pub max_shutdown_delay: u64,
}

impl Default for LifecycleOptions {
    /// Socket activated, at most 15 minutes, idle after a minute (checked every five
    /// seconds), and 15 seconds to shut down.
    fn default() -> (r: Self)
        ensures
            r.is_socket_activated,
            r.max_runtime == 15 * 60 * 1000,
            r.idle_timeout == 60 * 1000,
            r.idle_timeout_poll_interval == 5 * 1000,
            r.max_shutdown_delay == 15 * 1000,
    {
        Self {
            is_socket_activated: true,
            max_runtime: 15 * 60 * 1000,
            idle_timeout: 60 * 1000,
            idle_timeout_poll_interval: 5 * 1000,
            max_shutdown_delay: 15 * 1000,
        }
    }
}

/// Where the agent stores its files and how large its caches grow.
#[derive(Debug, Clone, PartialEq, Eq)]
pub struct StorageOptions {
    pub layout: StorageLayout,
    pub cache_capacities: CacheSizes,
}

impl Default for StorageOptions {
    fn default() -> (r: Self)
        ensures
            r.layout.root.path@ == spec_default_root(),
            r.cache_capacities == (CacheSizes {
                cfg_sch_digest: 100,
                cfg_inst_metadata: 100,
                cfg_inst_data: 100,
                cfg_schema: 100,
            }),
    {
        Self { layout: StorageLayout::default(), cache_capacities: CacheSizes::default() }
    }
}

/// Where the local socket server listens.
#[derive(Debug, Clone)]
pub struct ServerOptions {
    pub socket_file: File,
}

/// The socket the agent's clients reach it on.
pub open spec fn default_socket_path() -> Seq<char> {
    "/run/miru/miru.sock"@
}

impl Default for ServerOptions {
    fn default() -> (r: Self)
        ensures
            r.socket_file.path@ == default_socket_path(),
    {
        proof {
            reveal_strlit("/run/miru/miru.sock");
        }
        Self { socket_file: File { path: "/run/miru/miru.sock".to_string() } }
    }
}

/// The options of a run of the agent.
#[derive(Debug)]
pub struct AppOptions {
    pub lifecycle: LifecycleOptions,
    pub storage: StorageOptions,
    pub fsm_settings: Settings,
    pub backend_base_url: String,
    pub enable_socket_server: bool,
    pub server: ServerOptions,
    pub enable_backend_sync_worker: bool,
}

impl Default for AppOptions {
    fn default() -> (r: Self)
        ensures
            r.lifecycle.is_socket_activated,
            r.storage.layout.root.path@ == spec_default_root(),
            r.fsm_settings.max_attempts == 2147483647,
            r.backend_base_url@ == "https://configs.api.miruml.com/agent/v1"@,
            r.enable_socket_server,
            r.server.socket_file.path@ == default_socket_path(),
            r.enable_backend_sync_worker,
    {
        proof {
            reveal_strlit("https://configs.api.miruml.com/agent/v1");
        }
        Self {
            lifecycle: LifecycleOptions::default(),
            storage: StorageOptions::default(),
            fsm_settings: Settings::default(),
            backend_base_url: "https://configs.api.miruml.com/agent/v1".to_string(),
            enable_socket_server: true,
            server: ServerOptions::default(),
            enable_backend_sync_worker: true,
        }
    }
}

/// Whether a run last touched at `last_touched_secs` (seconds since the epoch) has been
/// idle longer than `idle_timeout` at `now` (milliseconds since the epoch). A last touch
/// after `now` does not count as idle.
pub fn idle_timeout_reached(last_touched_secs: u64, now: i64, idle_timeout: u64) -> (r: bool)
    ensures
        r == (now - 1000 * last_touched_secs >= 0 && now - 1000 * last_touched_secs > idle_timeout),
{
    let last_activity = last_touched_secs as i128 * 1000;
    let idle = now as i128 - last_activity;
    idle >= 0 && idle > idle_timeout as i128
}

} // verus!
