use config_agent::filesys::Dir;
use config_agent::models::agent::Agent;
use config_agent::storage::agent::assert_activated;
use config_agent::storage::caches::CacheSizes;
use config_agent::storage::layout::StorageLayout;
use config_agent::options::{idle_timeout_reached, AppOptions, LifecycleOptions, StorageOptions};

#[test]
fn default_layout_paths() {
    let l = StorageLayout::default();
    assert_eq!(l.root.path, "/var/lib/miru");
    assert_eq!(l.agent_file().path, "/var/lib/miru/agent.json");
    assert_eq!(l.caches_dir().path, "/var/lib/miru/cache");
    assert_eq!(l.config_schema_digest_cache().path, "/var/lib/miru/cache/config_schemas/digests.json");
    assert_eq!(l.config_schema_cache().path, "/var/lib/miru/cache/config_schemas/metadata.json");
    assert_eq!(l.config_instance_metadata_cache().path, "/var/lib/miru/cache/config_instances/metadata.json");
    assert_eq!(l.config_instance_data_cache().path, "/var/lib/miru/cache/config_instances/instances");
    let auth = l.auth_dir();
    assert_eq!(auth.private_key_file().path, "/var/lib/miru/auth/private_key.pem");
    assert_eq!(auth.public_key_file().path, "/var/lib/miru/auth/public_key.pem");
    assert_eq!(auth.token_file().path, "/var/lib/miru/auth/token.json");
}

#[test]
fn layout_under_another_root() {
    let l = StorageLayout::new(Dir::new("/tmp/x/".to_string()));
    assert_eq!(l.agent_file().path, "/tmp/x/agent.json");
    assert_eq!(StorageLayout::default_root_dir().path, "/var/lib/miru");
}

#[test]
fn activation_check() {
    assert!(assert_activated(&Agent { activated: true, ..Agent::default() }).is_ok());
    let e = assert_activated(&Agent::default()).unwrap_err();
    assert_eq!(e.msg, "agent is not activated");
}

#[test]
fn option_defaults() {
    let s = CacheSizes::default();
    assert_eq!((s.cfg_sch_digest, s.cfg_inst_metadata, s.cfg_inst_data, s.cfg_schema), (100, 100, 100, 100));
    let l = LifecycleOptions::default();
    assert!(l.is_socket_activated);
    assert_eq!(l.max_runtime, 900_000);
    assert_eq!(l.idle_timeout, 60_000);
    let a = AppOptions::default();
    assert_eq!(a.backend_base_url, "https://configs.api.miruml.com/agent/v1");
    assert_eq!(StorageOptions::default().layout, StorageLayout::default());
}

#[test]
fn idle_timeout_counts_from_last_touch() {
    assert!(!idle_timeout_reached(100, 100_000 + 60_000, 60_000));
    assert!(idle_timeout_reached(100, 100_000 + 60_001, 60_000));
    assert!(!idle_timeout_reached(200, 100_000, 60_000));
}
