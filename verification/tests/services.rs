use config_agent::cache::entry::CacheEntry;
use config_agent::cache::file::SingleThreadFileCache;
use config_agent::errors::{Code, ExternalErr, MiruError};
use config_agent::http::errors::HTTPErr;
use config_agent::models::config_instance::{ActivityStatus, ConfigInstance, ErrorStatus, TargetStatus};
use config_agent::models::config_schema::ConfigSchema;
use config_agent::services::config_instances::{
    fetch_config_schema_id, read_deployed, read_deployed_from_caches, schema_filters, schema_id_from_backend,
    schema_id_from_cache, should_sync_before_read, ReadDeployedArgs, SchemaIdLookup,
};
use config_agent::services::config_schemas::{
    cached_resolved_digest, hash_schema, hash_schema_from_backend, remember_resolved_digest, ConfigSchemaDigests,
    HashSchemaLookup,
};
use config_agent::services::device::{sync_device, sync_device_result, SyncDeviceResult};
use config_agent::services::errors::ConfigSchemaNotFound;
use config_agent::sync::syncer::SyncerState;
use config_agent::services::errors::ServiceErr;
use config_agent::sync::errors::{SyncErr, SyncHTTPClientErr};

fn args() -> ReadDeployedArgs {
    ReadDeployedArgs { device_id: "dev".to_string(), config_type_slug: "motion".to_string(), config_schema_digest: "abc".to_string() }
}

fn schema(id: &str, slug: &str, digest: &str) -> ConfigSchema {
    ConfigSchema {
        id: id.to_string(),
        version: 1,
        digest: digest.to_string(),
        created_at: String::new(),
        created_by_id: None,
        config_type_id: "t".to_string(),
        config_type_slug: Some(slug.to_string()),
    }
}

fn entry<V>(key: &str, value: V) -> CacheEntry<V> {
    CacheEntry { key: key.to_string(), value, is_dirty: false, created_at: 0, last_accessed: 0 }
}

#[test]
fn schema_from_cache() {
    let cache = SingleThreadFileCache::from_entries(vec![
        entry("s1", schema("s1", "motion", "abc")),
        entry("s2", schema("s2", "motion", "def")),
    ]);
    assert_eq!(schema_id_from_cache(&cache, &args()).unwrap(), Some("s1".to_string()));
    let empty: SingleThreadFileCache<ConfigSchema> = SingleThreadFileCache::new();
    assert_eq!(schema_id_from_cache(&empty, &args()).unwrap(), None);
    let dup = SingleThreadFileCache::from_entries(vec![
        entry("s1", schema("s1", "motion", "abc")),
        entry("s3", schema("s3", "motion", "abc")),
    ]);
    assert!(matches!(schema_id_from_cache(&dup, &args()), Err(ServiceErr::CrudErr(_))));
    let f = schema_filters(&args());
    assert_eq!(f.digests.unwrap().val, vec!["abc".to_string()]);
    assert_eq!(f.config_type_slugs.unwrap().val, vec!["motion".to_string()]);
}

#[test]
fn schema_from_backend_maps_errors() {
    assert_eq!(schema_id_from_backend(Ok(schema("s9", "motion", "abc")), &args()).unwrap(), "s9");
    let lost = HTTPErr::RequestErr(ExternalErr { msg: "x".to_string(), code: Code::InternalServerError, http_status: 500, network: true });
    match schema_id_from_backend(Err(lost), &args()) {
        Err(ServiceErr::ConfigSchemaNotFound(e)) => {
            assert!(e.network_connection_error);
            assert_eq!(e.config_type_slug, "motion");
            assert_eq!(e.code(), Code::ResourceNotFound);
        }
        other => panic!("unexpected {:?}", other),
    }
    let other = HTTPErr::RequestErr(ExternalErr { msg: "x".to_string(), code: Code::InternalServerError, http_status: 500, network: false });
    assert!(matches!(schema_id_from_backend(Err(other), &args()), Err(ServiceErr::HTTPErr(_))));
}

#[test]
fn recent_sync_is_not_repeated() {
    assert!(!should_sync_before_read(10_000, 14_999));
    assert!(should_sync_before_read(10_000, 15_000));
}

fn deployed(id: &str, schema_id: &str) -> ConfigInstance {
    ConfigInstance {
        id: id.to_string(),
        target_status: TargetStatus::Deployed,
        activity_status: ActivityStatus::Deployed,
        error_status: ErrorStatus::NoError,
        relative_filepath: None,
        patch_id: None,
        created_by_id: None,
        created_at: 0,
        updated_by_id: None,
        updated_at: 0,
        device_id: "dev".to_string(),
        config_schema_id: schema_id.to_string(),
        config_type_id: "t".to_string(),
        attempts: 0,
        cooldown_ends_at: 0,
    }
}

#[test]
fn deployed_instance_and_data() {
    let insts = SingleThreadFileCache::from_entries(vec![entry("c1", deployed("c1", "s1"))]);
    let mut data = SingleThreadFileCache::from_entries(vec![entry("c1", "{\"a\":1}".to_string())]);
    let (i, d) = read_deployed_from_caches(&insts, &mut data, "s1", &args(), 5).unwrap();
    assert_eq!(i.id, "c1");
    assert_eq!(d, "{\"a\":1}");
    match read_deployed_from_caches(&insts, &mut data, "s2", &args(), 5) {
        Err(ServiceErr::DeployedConfigInstanceNotFound(e)) => {
            assert_eq!(e.config_schema_id, "s2");
            assert!(!e.network_connection_error);
        }
        other => panic!("unexpected {:?}", other),
    }
    let mut no_data: SingleThreadFileCache<String> = SingleThreadFileCache::new();
    assert!(matches!(read_deployed_from_caches(&insts, &mut no_data, "s1", &args(), 5), Err(ServiceErr::CrudErr(_))));
}

#[test]
fn digests_are_remembered() {
    let mut cache: SingleThreadFileCache<ConfigSchemaDigests> = SingleThreadFileCache::new();
    assert_eq!(cached_resolved_digest(&mut cache, "raw", 1), None);
    remember_resolved_digest(&mut cache, "raw".to_string(), "resolved".to_string(), 1);
    assert_eq!(cached_resolved_digest(&mut cache, "raw", 2), Some("resolved".to_string()));
}

#[test]
fn sync_outcomes_for_clients() {
    assert_eq!(sync_device_result(&Ok(())), SyncDeviceResult::Success);
    let e = |network| -> Result<(), SyncErr> {
        Err(SyncErr::HTTPClientErr(Box::new(SyncHTTPClientErr {
            source: ExternalErr { msg: "x".to_string(), code: Code::InternalServerError, http_status: 500, network },
        })))
    };
    assert_eq!(sync_device_result(&e(true)), SyncDeviceResult::NetworkConnectionError);
    assert_eq!(sync_device_result(&e(false)), SyncDeviceResult::InternalServerError);
}

#[test]
fn backend_is_asked_only_on_a_cache_miss() {
    let cache = SingleThreadFileCache::from_entries(vec![entry("s1", schema("s1", "motion", "abc"))]);
    match fetch_config_schema_id(&cache, &args()) {
        SchemaIdLookup::Answered(Ok(id)) => assert_eq!(id, "s1"),
        other => panic!("unexpected {:?}", other),
    }
    let empty: SingleThreadFileCache<ConfigSchema> = SingleThreadFileCache::new();
    match fetch_config_schema_id(&empty, &args()) {
        SchemaIdLookup::AskBackend(f) => {
            assert_eq!(f.digests.unwrap().val, vec!["abc".to_string()]);
            assert_eq!(f.config_type_slugs.unwrap().val, vec!["motion".to_string()]);
        }
        other => panic!("unexpected {:?}", other),
    }
    let dup = SingleThreadFileCache::from_entries(vec![
        entry("s1", schema("s1", "motion", "abc")),
        entry("s3", schema("s3", "motion", "abc")),
    ]);
    assert!(matches!(fetch_config_schema_id(&dup, &args()), SchemaIdLookup::Answered(Err(ServiceErr::CrudErr(_)))));
}

#[test]
fn read_deployed_ignores_a_failed_sync() {
    let insts = SingleThreadFileCache::from_entries(vec![entry("c1", deployed("c1", "s1"))]);
    let mut data = SingleThreadFileCache::from_entries(vec![entry("c1", "{\"a\":1}".to_string())]);
    let failed: Result<(), SyncErr> = Err(SyncErr::HTTPClientErr(Box::new(SyncHTTPClientErr {
        source: ExternalErr { msg: "x".to_string(), code: Code::InternalServerError, http_status: 500, network: false },
    })));
    let (i, d) = read_deployed(&insts, &mut data, Ok("s1".to_string()), &failed, &args(), 5).unwrap();
    assert_eq!(i.id, "c1");
    assert_eq!(d, "{\"a\":1}");
    let not_found = ServiceErr::ConfigSchemaNotFound(ConfigSchemaNotFound {
        config_type_slug: "motion".to_string(),
        config_schema_digest: "abc".to_string(),
        network_connection_error: true,
    });
    assert!(matches!(
        read_deployed(&insts, &mut data, Err(not_found), &Ok(()), &args(), 6),
        Err(ServiceErr::ConfigSchemaNotFound(_))
    ));
}

#[test]
fn hashed_schemas_are_remembered() {
    let mut cache: SingleThreadFileCache<ConfigSchemaDigests> = SingleThreadFileCache::new();
    assert_eq!(hash_schema_from_backend(&mut cache, "raw".to_string(), Ok("resolved".to_string()), 1).unwrap(), "resolved");
    assert_eq!(cached_resolved_digest(&mut cache, "raw", 2), Some("resolved".to_string()));
    let failed = HTTPErr::RequestErr(ExternalErr { msg: "x".to_string(), code: Code::InternalServerError, http_status: 500, network: true });
    assert!(matches!(hash_schema_from_backend(&mut cache, "raw2".to_string(), Err(failed), 3), Err(ServiceErr::HTTPErr(_))));
    assert_eq!(cached_resolved_digest(&mut cache, "raw2", 4), None);
}

#[test]
fn sync_response_reports_state() {
    let state = SyncerState { last_sync_attempted_at: 2_000, last_successful_sync_at: 1_000, cooldown_ends_at: 10_000, err_streak: 1 };
    let ok = sync_device(&Ok(()), String::new(), &state, 5_000);
    assert_eq!(ok.code, SyncDeviceResult::Success);
    assert_eq!(ok.message, "successfully synced");
    assert_eq!(ok.last_synced_at, "1970-01-01T00:00:01+00:00");
    assert_eq!(ok.last_attempted_sync_at, "1970-01-01T00:00:02+00:00");
    assert!(ok.is_cooling_down);
    assert_eq!(ok.cooldown_ends_at, "1970-01-01T00:00:10+00:00");
    let failed: Result<(), SyncErr> = Err(SyncErr::HTTPClientErr(Box::new(SyncHTTPClientErr {
        source: ExternalErr { msg: "x".to_string(), code: Code::InternalServerError, http_status: 500, network: true },
    })));
    let r = sync_device(&failed, "lost connection".to_string(), &state, 10_000);
    assert_eq!(r.code, SyncDeviceResult::NetworkConnectionError);
    assert_eq!(r.message, "lost connection");
    assert!(!r.is_cooling_down);
}

#[test]
fn hash_asks_backend_only_for_unknown_schemas() {
    let mut cache: SingleThreadFileCache<ConfigSchemaDigests> = SingleThreadFileCache::new();
    assert_eq!(hash_schema(&mut cache, "raw", 1), HashSchemaLookup::AskBackend);
    hash_schema_from_backend(&mut cache, "raw".to_string(), Ok("resolved".to_string()), 2).unwrap();
    assert_eq!(hash_schema(&mut cache, "raw", 3), HashSchemaLookup::Resolved("resolved".to_string()));
}
