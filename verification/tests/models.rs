use config_agent::logs::LogLevel;
use config_agent::models::agent::{Agent, DeserializedAgent};
use config_agent::models::config_instance::{
    ActivityStatus, BackendConfigInstance, ConfigInstance, DeserializedConfigInstance, ErrorStatus, Status, TargetStatus,
};
use config_agent::models::config_schema::{ConfigSchema, DeserializedConfigSchema};
use config_agent::models::device::{DeserializedDevice, Device, DeviceStatus, Updates};
use config_agent::time::format_timestamp;

#[test]
fn status_names_round_trip() {
    for s in TargetStatus::variants() {
        assert_eq!(TargetStatus::from_str_or_default(s.as_str()), s);
    }
    for s in ActivityStatus::variants() {
        assert_eq!(ActivityStatus::from_str_or_default(s.as_str()), s);
    }
    for s in ErrorStatus::variants() {
        assert_eq!(ErrorStatus::from_str_or_default(s.as_str()), s);
    }
    for s in Status::variants() {
        assert_eq!(Status::from_str_or_default(s.as_str()), s);
    }
    for s in DeviceStatus::variants() {
        assert_eq!(DeviceStatus::from_str_or_default(s.as_str()), s);
    }
}

#[test]
fn unknown_status_names_read_as_defaults() {
    assert_eq!(TargetStatus::from_str_or_default("bogus"), TargetStatus::default());
    assert_eq!(ActivityStatus::from_str_or_default("bogus"), ActivityStatus::default());
    assert_eq!(ErrorStatus::from_str_or_default("bogus"), ErrorStatus::default());
    assert_eq!(DeviceStatus::from_str_or_default("bogus"), DeviceStatus::Offline);
    assert_eq!(ErrorStatus::NoError.as_str(), "none");
    assert_eq!(DeviceStatus::Online.as_str(), "online");
}

#[test]
fn status_folds_error_into_activity() {
    let mut i = ConfigInstance::default_with_uuids("i", "d", "s", "t");
    i.activity_status = ActivityStatus::Deployed;
    assert_eq!(i.status(), Status::Deployed);
    i.error_status = ErrorStatus::Retrying;
    assert_eq!(i.status(), Status::Retrying);
    i.error_status = ErrorStatus::Failed;
    assert_eq!(i.status(), Status::Failed);
}

#[test]
fn default_instance_has_made_up_ids() {
    let i = ConfigInstance::default_with_uuids("a", "b", "c", "d");
    assert_eq!(i.id, "unknown-a");
    assert_eq!(i.device_id, "unknown-b");
    assert_eq!(i.config_schema_id, "unknown-c");
    assert_eq!(i.config_type_id, "unknown-d");
    assert_eq!(i.target_status, TargetStatus::Created);
    assert_eq!(i.created_at, 0);
    assert!(i.is_valid());
    let u = uuid::Uuid::new_v4().to_string();
    let fresh = ConfigInstance::default_with_uuids(&u, &u, &u, &u);
    assert_eq!(fresh.id.len(), 44);
}

#[test]
fn cooldown_of_an_instance() {
    let mut i = ConfigInstance::default_with_uuids("i", "d", "s", "t");
    i.set_cooldown(5_000, 1_000);
    assert_eq!(i.cooldown_ends_at, 6_000);
    assert!(i.is_in_cooldown(5_999));
    assert!(!i.is_in_cooldown(6_000));
    assert_eq!(i.cooldown(4_000), 2_000);
    i.clear_cooldown();
    assert_eq!(i.cooldown_ends_at, 0);
    assert!(!i.is_in_cooldown(1));
}

fn backend(created_at: &str) -> BackendConfigInstance {
    BackendConfigInstance {
        id: "ci".to_string(),
        target_status: TargetStatus::Deployed,
        activity_status: ActivityStatus::Queued,
        error_status: ErrorStatus::NoError,
        relative_filepath: Some("a.json".to_string()),
        patch_id: None,
        created_at: created_at.to_string(),
        updated_at: "not a time".to_string(),
        created_by_id: None,
        updated_by_id: None,
        device_id: "d".to_string(),
        config_schema_id: "s".to_string(),
        config_type_id: "t".to_string(),
        content: Some("{}".to_string()),
    }
}

#[test]
fn instance_from_backend_parses_its_instants() {
    let i = ConfigInstance::from_backend(backend("2024-01-02T03:04:05.678Z"));
    assert_eq!(i.created_at, 1_704_164_645_678);
    assert_eq!(i.updated_at, 0);
    assert_eq!(i.attempts, 0);
    assert_eq!(i.cooldown_ends_at, 0);
    assert_eq!(i.relative_filepath.as_deref(), Some("a.json"));
    let far = ConfigInstance::from_backend(backend("+262142-12-31T23:59:60.999Z"));
    assert_eq!(far.created_at, 0);
}

#[test]
fn deserialized_instance_fills_defaults() {
    let d = DeserializedConfigInstance {
        id: "a".to_string(),
        target_status: TargetStatus::Deployed,
        activity_status: ActivityStatus::Queued,
        error_status: ErrorStatus::NoError,
        device_id: "d".to_string(),
        config_schema_id: "s".to_string(),
        config_type_id: "t".to_string(),
        created_at: Some(5),
        updated_at: None,
        attempts: None,
        cooldown_ends_at: Some(9),
        relative_filepath: None,
        patch_id: None,
        created_by_id: None,
        updated_by_id: None,
    };
    let i = ConfigInstance::from_deserialized(d);
    assert_eq!((i.created_at, i.updated_at, i.attempts, i.cooldown_ends_at), (5, 0, 0, 9));
}

#[test]
fn default_schema() {
    let s = ConfigSchema::default_with_uuids("a", "b", "c");
    assert_eq!(s.id, "unknown-a");
    assert_eq!(s.digest, "unknown-b");
    assert_eq!(s.config_type_id, "unknown-c");
    assert_eq!(s.version, -1);
    assert_eq!(s.created_at, format_timestamp(0));
    assert_eq!(s.created_at, "1970-01-01T00:00:00+00:00");
}

#[test]
fn device_merge_takes_given_fields() {
    let mut d = Device::default();
    assert_eq!(d.name, "placeholder");
    d.merge(Updates::connected(100));
    assert_eq!(d.status, DeviceStatus::Online);
    assert_eq!(d.last_connected_at, 100);
    assert_eq!(d.last_disconnected_at, 0);
    d.merge(Updates::disconnected(200));
    assert_eq!(d.status, DeviceStatus::Offline);
    assert_eq!(d.last_connected_at, 100);
    assert_eq!(d.last_disconnected_at, 200);
    let before = d.clone();
    d.merge(Updates::empty());
    assert_eq!(d, before);
    let u = Updates::connected(300);
    assert_eq!(u.status, Some(DeviceStatus::Online));
    assert_eq!(u.last_connected_at, Some(300));
    assert_eq!(Updates::disconnected(400).last_disconnected_at, Some(400));
}

#[test]
fn deserialized_device_and_agent_fill_defaults() {
    let d = Device::from_deserialized(DeserializedDevice {
        device_id: "d".to_string(),
        name: None,
        activated: Some(true),
        status: None,
        last_synced_at: Some(7),
        last_connected_at: None,
        last_disconnected_at: None,
    });
    assert_eq!(d.id, "d");
    assert_eq!(d.name, "placeholder");
    assert!(d.activated);
    assert_eq!(d.status, DeviceStatus::Offline);
    assert_eq!(d.last_synced_at, 7);
    let a = Agent::from_deserialized(DeserializedAgent {
        device_id: "d".to_string(),
        activated: None,
        backend_base_url: None,
        log_level: None,
        config_instance_deployment_base_path: None,
    });
    assert!(!a.activated);
    assert_eq!(Agent::default().device_id, "placeholder");
}

#[test]
fn agent_record_defaults() {
    let a = Agent::from_deserialized(DeserializedAgent {
        device_id: "d1".to_string(),
        activated: None,
        backend_base_url: None,
        log_level: None,
        config_instance_deployment_base_path: None,
    });
    assert_eq!(
        a,
        Agent {
            device_id: "d1".to_string(),
            activated: false,
            backend_base_url: "https://configs.api.miruml.com/agent/v1".to_string(),
            log_level: LogLevel::Info,
            config_instance_deployment_base_path: "/srv/miru/configs/".to_string(),
        }
    );
    let b = Agent::from_deserialized(DeserializedAgent {
        device_id: "d2".to_string(),
        activated: Some(true),
        backend_base_url: Some("http://localhost:8080".to_string()),
        log_level: Some(LogLevel::Debug),
        config_instance_deployment_base_path: Some("/tmp/configs/".to_string()),
    });
    assert!(b.activated);
    assert_eq!(b.backend_base_url, "http://localhost:8080");
    assert_eq!(b.log_level, LogLevel::Debug);
    assert_eq!(b.config_instance_deployment_base_path, "/tmp/configs/");
    assert_eq!(LogLevel::default(), LogLevel::Info);
}

#[test]
fn deserialized_schema_fills_creation_time() {
    let read = |created_at: Option<String>| DeserializedConfigSchema {
        id: "s1".to_string(),
        version: 3,
        digest: "abc".to_string(),
        config_type_id: "t1".to_string(),
        created_at,
        created_by_id: None,
        config_type_slug: Some("motion".to_string()),
    };
    let s = ConfigSchema::from_deserialized(read(None));
    assert_eq!(s.id, "s1");
    assert_eq!(s.version, 3);
    assert_eq!(s.digest, "abc");
    assert_eq!(s.config_type_id, "t1");
    assert_eq!(s.created_at, format_timestamp(0));
    assert_eq!(s.created_at, "1970-01-01T00:00:00+00:00");
    assert_eq!(s.config_type_slug, Some("motion".to_string()));
    let s = ConfigSchema::from_deserialized(read(Some("2024-05-01T00:00:00Z".to_string())));
    assert_eq!(s.created_at, "2024-05-01T00:00:00Z");
}

#[test]
fn instance_for_clients() {
    let i = ConfigInstance::from_backend(backend("2024-01-02T03:04:05.678Z"));
    let r = ConfigInstance::to_sdk(i, "{\"speed\":3}".to_string());
    assert_eq!(r.id, "ci");
    assert_eq!(r.status, Status::Queued);
    assert_eq!(r.target_status, TargetStatus::Deployed);
    assert_eq!(r.created_at, "2024-01-02T03:04:05.678+00:00");
    assert_eq!(r.updated_at, "1970-01-01T00:00:00+00:00");
    assert_eq!(r.relative_filepath.as_deref(), Some("a.json"));
    assert_eq!(r.content, "{\"speed\":3}");
}
