use config_agent::cache::entry::CacheEntry;
use config_agent::cache::errors::{CacheElementNotFound, CacheErr};
use config_agent::cache::file::SingleThreadFileCache;
use config_agent::errors::{Code, ExternalErr, MiruError};
use config_agent::models::config_instance::{ActivityStatus, BackendConfigInstance, ConfigInstance, ErrorStatus, TargetStatus};
use config_agent::sync::errors::{SyncAuthErr, SyncErr, SyncErrors, SyncHTTPClientErr};
use config_agent::sync::pull::{
    add_unknown_instances_to_storage, categorize_instances, check_expanded_instances, content_expansions, ids_of,
    instances_with_ids_filters, unremoved_instances_filters, update_target_status_instances,
};
use config_agent::sync::push::push_config_instances;
use config_agent::sync::sync::{instances_to_apply, sync_result};
use config_agent::sync::syncer::{sync_cooldown_options, SyncStatus, SyncerState};
use config_agent::utils::CooldownOptions;

const NOW: i64 = 1_700_000_000_000;

fn inst(id: &str, target: TargetStatus, activity: ActivityStatus) -> ConfigInstance {
    ConfigInstance {
        id: id.to_string(),
        target_status: target,
        activity_status: activity,
        error_status: ErrorStatus::NoError,
        relative_filepath: None,
        patch_id: None,
        created_by_id: None,
        created_at: 0,
        updated_by_id: None,
        updated_at: 0,
        device_id: "dev".to_string(),
        config_schema_id: "s".to_string(),
        config_type_id: "t".to_string(),
        attempts: 0,
        cooldown_ends_at: 0,
    }
}

fn backend(id: &str, target: TargetStatus, content: Option<&str>) -> BackendConfigInstance {
    BackendConfigInstance {
        id: id.to_string(),
        target_status: target,
        activity_status: ActivityStatus::Queued,
        error_status: ErrorStatus::NoError,
        relative_filepath: None,
        patch_id: None,
        created_at: "2024-01-01T00:00:00Z".to_string(),
        updated_at: "2024-01-01T00:00:00Z".to_string(),
        created_by_id: None,
        updated_by_id: Some("user".to_string()),
        device_id: "dev".to_string(),
        config_schema_id: "s".to_string(),
        config_type_id: "t".to_string(),
        content: content.map(|c| c.to_string()),
    }
}

fn cache_of(insts: Vec<ConfigInstance>, dirty: bool) -> SingleThreadFileCache<ConfigInstance> {
    SingleThreadFileCache::from_entries(
        insts
            .into_iter()
            .map(|i| CacheEntry { key: i.id.clone(), value: i, is_dirty: dirty, created_at: 5, last_accessed: 5 })
            .collect(),
    )
}

// ================================= SYNCER ======================================== //
#[test]
fn success_resets_the_streak() {
    let mut s = SyncerState::new();
    let o = CooldownOptions::default();
    s.record_attempt(NOW);
    s.record_failure(&o, NOW);
    assert_eq!(s.err_streak, 1);
    assert_eq!(s.cooldown_ends_at, NOW + 30_000);
    assert!(!s.should_sync(NOW + 10_000));
    assert_eq!(s.cooldown_notification_delay(NOW + 10_500), Some(19));
    s.record_success(NOW + 40_000);
    assert_eq!(s.err_streak, 0);
    assert_eq!(s.cooldown_ends_at, NOW + 40_000);
    assert_eq!(s.last_successful_sync_at, NOW + 40_000);
    assert_eq!(s.last_sync_attempted_at, NOW);
    assert!(s.should_sync(NOW + 40_000));
    assert_eq!(s.cooldown_notification_delay(NOW + 40_000), None);
}

#[test]
fn failures_in_a_row_back_off_up_to_the_cap() {
    let mut s = SyncerState::new();
    let o = CooldownOptions { base_secs: 10, growth_factor: 2, max_secs: 100 };
    let mut lengths = Vec::new();
    for _ in 0..6 {
        assert!(s.failure_recordable(&o, NOW));
        s.record_failure(&o, NOW);
        lengths.push(s.cooldown_ends_at - NOW);
    }
    assert_eq!(lengths, vec![20_000, 40_000, 80_000, 100_000, 100_000, 100_000]);
    assert!(s.is_in_cooldown(NOW + 99_999));
    assert!(!s.failure_recordable(&o, i64::MAX - 1));
    assert_ne!(SyncStatus::Synced, SyncStatus::NotSynced);
    let d = CooldownOptions::default();
    assert_eq!((d.base_secs, d.growth_factor, d.max_secs), (15, 2, 43_200));
}

// ================================== PULL ========================================= //
#[test]
fn categorize_sorts_unknown_changed_and_same() {
    let mut cache = cache_of(
        vec![inst("known_same", TargetStatus::Deployed, ActivityStatus::Deployed), inst("known_changed", TargetStatus::Deployed, ActivityStatus::Deployed)],
        false,
    );
    let c = categorize_instances(
        &mut cache,
        vec![
            backend("new", TargetStatus::Deployed, None),
            backend("known_same", TargetStatus::Deployed, None),
            backend("known_changed", TargetStatus::Removed, None),
        ],
        NOW,
    );
    assert_eq!(c.unknown.iter().map(|b| b.id.as_str()).collect::<Vec<_>>(), vec!["new"]);
    assert_eq!(c.other.iter().map(|b| b.id.as_str()).collect::<Vec<_>>(), vec!["known_same"]);
    assert_eq!(c.update_target_status.len(), 1);
    assert_eq!(c.update_target_status[0].id, "known_changed");
    assert_eq!(c.update_target_status[0].target_status, TargetStatus::Removed);
    assert_eq!(c.update_target_status[0].activity_status, ActivityStatus::Deployed);
    // the known entries were read
    assert_eq!(cache.read_entry("known_same", false, NOW).unwrap().last_accessed, NOW);
}

#[test]
fn pull_filters() {
    let f = unremoved_instances_filters("dev".to_string());
    assert_eq!(f.device_id, "dev");
    assert_eq!(f.activity_statuses.unwrap().val, vec![ActivityStatus::Queued, ActivityStatus::Deployed]);
    assert!(instances_with_ids_filters("dev".to_string(), vec![]).is_none());
    let f = instances_with_ids_filters("dev".to_string(), vec!["a".to_string()]).unwrap();
    assert_eq!(f.ids.unwrap().val, vec!["a".to_string()]);
    assert_eq!(content_expansions(), vec!["content".to_string()]);
}

#[test]
fn expanded_fetch_must_return_every_instance() {
    let ids = vec!["a".to_string(), "b".to_string()];
    let got = vec![backend("a", TargetStatus::Deployed, Some("{}"))];
    match check_expanded_instances(ids.clone(), got) {
        Err(SyncErr::MissingExpandedInstances(e)) => {
            assert_eq!(e.expected_ids, ids);
            assert_eq!(e.actual_ids, vec!["a".to_string()]);
        }
        other => panic!("unexpected {:?}", other),
    }
    let both = vec![backend("a", TargetStatus::Deployed, None), backend("b", TargetStatus::Deployed, None)];
    assert_eq!(ids_of(&both), ids);
    assert_eq!(check_expanded_instances(ids, both).unwrap().len(), 2);
}

#[test]
fn unknown_instances_are_stored_with_their_data() {
    let mut insts = cache_of(vec![], false);
    let mut data: SingleThreadFileCache<String> = SingleThreadFileCache::new();
    add_unknown_instances_to_storage(&mut insts, &mut data, vec![backend("a", TargetStatus::Deployed, Some("{\"x\":1}"))], NOW).unwrap();
    let e = insts.read_entry("a", false, NOW).unwrap();
    assert!(!e.is_dirty);
    assert_eq!(e.value.created_at, 1_704_067_200_000);
    assert_eq!(data.read("a", NOW).unwrap(), "{\"x\":1}");
}

#[test]
fn unknown_instance_without_data_stops_the_work() {
    let mut insts = cache_of(vec![], false);
    let mut data: SingleThreadFileCache<String> = SingleThreadFileCache::new();
    let r = add_unknown_instances_to_storage(
        &mut insts,
        &mut data,
        vec![backend("a", TargetStatus::Deployed, Some("{}")), backend("b", TargetStatus::Deployed, None), backend("c", TargetStatus::Deployed, Some("{}"))],
        NOW,
    );
    match r {
        Err(SyncErr::ConfigInstanceDataNotFound(e)) => assert_eq!(e.instance_id, "b"),
        other => panic!("unexpected {:?}", other),
    }
    assert_eq!(insts.size(), 1);
    assert_eq!(data.size(), 1);
}

#[test]
fn new_targets_are_stored_over_the_cached_instance() {
    let mut cache = cache_of(vec![inst("a", TargetStatus::Deployed, ActivityStatus::Deployed)], true);
    let mut changed = inst("a", TargetStatus::Removed, ActivityStatus::Queued);
    changed.updated_at = 77;
    changed.updated_by_id = Some("user".to_string());
    let missing = inst("zzz", TargetStatus::Removed, ActivityStatus::Queued);
    update_target_status_instances(&mut cache, vec![changed, missing], NOW).unwrap();
    let e = cache.read_entry("a", false, NOW).unwrap();
    assert_eq!(e.value.target_status, TargetStatus::Removed);
    assert_eq!(e.value.activity_status, ActivityStatus::Deployed);
    assert_eq!(e.value.updated_at, 77);
    assert_eq!(e.value.updated_by_id.as_deref(), Some("user"));
    assert!(!e.is_dirty);
    assert_eq!(e.created_at, 5);
    assert_eq!(cache.size(), 1);
}

// ================================== PUSH ========================================= //
#[test]
fn push_sends_dirty_instances_and_marks_them_clean() {
    let mut cache = SingleThreadFileCache::from_entries(vec![
        CacheEntry { key: "a".to_string(), value: inst("a", TargetStatus::Deployed, ActivityStatus::Deployed), is_dirty: true, created_at: 1, last_accessed: 1 },
        CacheEntry { key: "b".to_string(), value: inst("b", TargetStatus::Deployed, ActivityStatus::Queued), is_dirty: false, created_at: 1, last_accessed: 1 },
    ]);
    let updates = push_config_instances(&mut cache, NOW);
    assert_eq!(updates.len(), 1);
    assert_eq!(updates[0].id, "a");
    assert_eq!(updates[0].activity_status, ActivityStatus::Deployed);
    assert_eq!(updates[0].error_status, ErrorStatus::NoError);
    assert!(cache.get_dirty_entries().is_empty());
    assert!(push_config_instances(&mut cache, NOW).is_empty());
}

// ============================== ONE SYNC ========================================= //
#[test]
fn instances_to_apply_need_an_action() {
    let mut cooling = inst("cooling", TargetStatus::Deployed, ActivityStatus::Queued);
    cooling.cooldown_ends_at = NOW + 1;
    let cache = cache_of(
        vec![inst("pending", TargetStatus::Deployed, ActivityStatus::Queued), inst("done", TargetStatus::Deployed, ActivityStatus::Deployed), cooling],
        false,
    );
    let ids: Vec<String> = instances_to_apply(&cache, NOW).into_iter().map(|i| i.id).collect();
    assert_eq!(ids, vec!["pending".to_string()]);
}

fn http_err(network: bool) -> SyncErr {
    SyncErr::HTTPClientErr(Box::new(SyncHTTPClientErr {
        source: ExternalErr { msg: "x".to_string(), code: Code::InternalServerError, http_status: 500, network },
    }))
}

#[test]
fn sync_errors_are_network_errors_only_when_all_are() {
    assert!(sync_result(vec![]).is_ok());
    let all_network = sync_result(vec![http_err(true), http_err(true)]).unwrap_err();
    assert!(all_network.is_network_connection_error());
    let mixed = sync_result(vec![http_err(true), http_err(false)]).unwrap_err();
    assert!(!mixed.is_network_connection_error());
    assert_eq!(mixed.code(), Code::InternalServerError);
    let nested = SyncErr::SyncErrors(Box::new(SyncErrors { source: vec![all_network] }));
    assert!(nested.is_network_connection_error());
    let auth = SyncErr::AuthErr(Box::new(SyncAuthErr {
        source: ExternalErr { msg: "bad key".to_string(), code: Code::InternalServerError, http_status: 401, network: false },
    }));
    assert_eq!(auth.http_status(), 401);
    let cache_err = SyncErr::CrudErr(Box::new(config_agent::sync::errors::SyncCrudErr {
        source: CacheErr::CacheElementNotFound(CacheElementNotFound { msg: "m".to_string() }),
    }));
    assert!(!cache_err.is_network_connection_error());
}

#[test]
fn syncer_backoff_starts_at_one_second() {
    let o = sync_cooldown_options();
    assert_eq!((o.base_secs, o.growth_factor, o.max_secs), (1, 2, 43_200));
    let mut s = SyncerState::new();
    s.record_failure(&o, 0);
    assert_eq!(s.cooldown_ends_at, 2_000);
}
