use config_agent::cache::entry::CacheEntry;
use config_agent::cache::file::SingleThreadFileCache;
use config_agent::deploy::apply::{
    apply_one, find_instances_to_replace, find_replacement, is_dirty, matches_config_schema_and_next_action,
    on_update, Applier, Applying, MAX_APPLY_ITERATIONS,
};
use config_agent::deploy::errors::{DeployErr, DeployFileSysErr};
use config_agent::deploy::filesys::{after_op, file_op, DeployResults, FileOp, Rollout, Stage};
use config_agent::deploy::fsm::{
    self, action_required_at, error, fail_in_range, is_action_required, next_action,
    should_increment_attempts, NextAction, Settings,
};
use config_agent::errors::{Code, ExternalErr, MiruError};
use config_agent::models::config_instance::{ActivityStatus, ConfigInstance, ErrorStatus, TargetStatus};

const NOW: i64 = 1_700_000_000_000;

fn inst(id: &str, schema: &str, target: TargetStatus, activity: ActivityStatus, path: Option<&str>) -> ConfigInstance {
    ConfigInstance {
        id: id.to_string(),
        target_status: target,
        activity_status: activity,
        error_status: ErrorStatus::NoError,
        relative_filepath: path.map(|p| p.to_string()),
        patch_id: None,
        created_by_id: None,
        created_at: 0,
        updated_by_id: None,
        updated_at: 0,
        device_id: "dev".to_string(),
        config_schema_id: schema.to_string(),
        config_type_id: "type".to_string(),
        attempts: 0,
        cooldown_ends_at: 0,
    }
}

fn fs_err(network: bool) -> DeployErr {
    DeployErr::FileSysErr(DeployFileSysErr {
        source: ExternalErr { msg: "disk full".to_string(), code: Code::InternalServerError, http_status: 500, network },
    })
}

fn cache_of(insts: Vec<ConfigInstance>) -> SingleThreadFileCache<ConfigInstance> {
    SingleThreadFileCache::from_entries(
        insts
            .into_iter()
            .map(|i| CacheEntry { key: i.id.clone(), value: i, is_dirty: false, created_at: 0, last_accessed: 0 })
            .collect(),
    )
}

fn settings() -> Settings {
    Settings { max_attempts: 3, exp_backoff_base_secs: 15, max_cooldown_secs: 86400 }
}

// =================================== FSM ========================================= //
#[test]
fn next_action_moves_towards_target() {
    let i = inst("a", "s", TargetStatus::Deployed, ActivityStatus::Queued, None);
    assert_eq!(next_action(&i, true, NOW), NextAction::Deploy);
    let i = inst("a", "s", TargetStatus::Deployed, ActivityStatus::Deployed, None);
    assert_eq!(next_action(&i, true, NOW), NextAction::NoAction);
    let i = inst("a", "s", TargetStatus::Removed, ActivityStatus::Deployed, None);
    assert_eq!(next_action(&i, true, NOW), NextAction::Remove);
    let i = inst("a", "s", TargetStatus::Created, ActivityStatus::Deployed, None);
    assert_eq!(next_action(&i, true, NOW), NextAction::Remove);
    let i = inst("a", "s", TargetStatus::Created, ActivityStatus::Queued, None);
    assert_eq!(next_action(&i, true, NOW), NextAction::NoAction);
}

#[test]
fn next_action_waits_during_cooldown_and_stops_when_failed() {
    let mut i = inst("a", "s", TargetStatus::Deployed, ActivityStatus::Queued, None);
    i.cooldown_ends_at = NOW + 5000;
    assert_eq!(next_action(&i, true, NOW), NextAction::Wait(5000));
    assert_eq!(next_action(&i, false, NOW), NextAction::Deploy);
    assert!(!action_required_at(&i, NOW));
    assert!(!is_action_required(NextAction::Wait(5000)));
    i.error_status = ErrorStatus::Failed;
    assert_eq!(next_action(&i, false, NOW), NextAction::NoAction);
    assert_eq!(next_action(&i, true, NOW), NextAction::NoAction);
}

#[test]
fn success_transition_recovers_a_retrying_instance() {
    let mut i = inst("a", "s", TargetStatus::Deployed, ActivityStatus::Queued, None);
    i.error_status = ErrorStatus::Retrying;
    i.attempts = 2;
    let d = fsm::deploy(i.clone());
    assert_eq!(d.activity_status, ActivityStatus::Deployed);
    assert_eq!(d.error_status, ErrorStatus::NoError);
    assert_eq!(d.attempts, 0);
    let r = fsm::remove(i);
    assert_eq!(r.activity_status, ActivityStatus::Removed);
    assert_eq!(r.error_status, ErrorStatus::Retrying);
    assert_eq!(r.attempts, 2);
}

#[test]
fn failure_counts_attempts_and_backs_off() {
    let i = inst("a", "s", TargetStatus::Deployed, ActivityStatus::Queued, None);
    let e = fs_err(false);
    assert!(should_increment_attempts(&e));
    let f = error(i.clone(), &settings(), &e, true, NOW);
    assert_eq!(f.attempts, 1);
    assert_eq!(f.error_status, ErrorStatus::Retrying);
    assert_eq!(f.cooldown_ends_at, NOW + 30_000);
    let f2 = error(f, &settings(), &e, true, NOW);
    assert_eq!(f2.attempts, 2);
    assert_eq!(f2.cooldown_ends_at, NOW + 60_000);
    let f3 = error(f2, &settings(), &e, true, NOW);
    assert_eq!(f3.attempts, 3);
    assert_eq!(f3.error_status, ErrorStatus::Failed);
    // a lost connection does not count
    let n = error(i, &settings(), &fs_err(true), true, NOW);
    assert_eq!(n.attempts, 0);
    assert_eq!(n.cooldown_ends_at, NOW + 15_000);
}

#[test]
fn failure_cooldown_is_capped() {
    let mut i = inst("a", "s", TargetStatus::Deployed, ActivityStatus::Queued, None);
    i.attempts = 40;
    let s = Settings { max_attempts: 100, exp_backoff_base_secs: 15, max_cooldown_secs: 600 };
    let f = error(i, &s, &fs_err(false), true, NOW);
    assert_eq!(f.cooldown_ends_at, NOW + 600_000);
    assert!(fail_in_range(&f, &s, true, NOW));
    assert!(!fail_in_range(&f, &s, true, i64::MAX - 10));
}

#[test]
fn default_settings() {
    let s = Settings::default();
    assert_eq!(s.max_attempts, 2147483647);
    assert_eq!(s.exp_backoff_base_secs, 15);
    assert_eq!(s.max_cooldown_secs, 86400);
}

// ================================ DEPLOYING ====================================== //
#[test]
fn dirtiness_follows_status_changes() {
    let i = inst("a", "s", TargetStatus::Deployed, ActivityStatus::Queued, None);
    assert!(is_dirty(None, &i));
    let e = CacheEntry { key: "a".to_string(), value: i.clone(), is_dirty: false, created_at: 0, last_accessed: 0 };
    assert!(!is_dirty(Some(&e), &i));
    let mut j = i.clone();
    j.activity_status = ActivityStatus::Deployed;
    assert!(is_dirty(Some(&e), &j));
    let mut k = i.clone();
    k.error_status = ErrorStatus::Retrying;
    assert!(is_dirty(Some(&e), &k));
}

#[test]
fn conflicts_are_deployed_instances_of_schema_or_file() {
    let new = inst("new", "s1", TargetStatus::Deployed, ActivityStatus::Queued, Some("cfg.json"));
    let cache = cache_of(vec![
        inst("same_schema", "s1", TargetStatus::Removed, ActivityStatus::Deployed, None),
        inst("same_file", "s2", TargetStatus::Removed, ActivityStatus::Deployed, Some("cfg.json")),
        inst("not_deployed", "s1", TargetStatus::Removed, ActivityStatus::Removed, Some("cfg.json")),
        inst("other", "s3", TargetStatus::Deployed, ActivityStatus::Deployed, Some("x.json")),
    ]);
    let found = find_instances_to_replace(&new, &cache).unwrap();
    let ids: Vec<&str> = found.iter().map(|c| c.id.as_str()).collect();
    assert_eq!(ids, vec!["same_schema", "same_file"]);
}

#[test]
fn conflict_that_wants_to_stay_is_an_error() {
    let new = inst("new", "s1", TargetStatus::Deployed, ActivityStatus::Queued, None);
    let cache = cache_of(vec![inst("old", "s1", TargetStatus::Deployed, ActivityStatus::Deployed, None)]);
    match find_instances_to_replace(&new, &cache) {
        Err(DeployErr::ConflictingDeploymentsErr(e)) => {
            assert_eq!(e.instances.len(), 2);
            assert_eq!(e.instances[0].id, "new");
            assert_eq!(e.instances[1].id, "old");
        }
        other => panic!("unexpected {:?}", other),
    }
}

#[test]
fn replacement_is_the_one_waiting_to_deploy() {
    let old = inst("old", "s1", TargetStatus::Removed, ActivityStatus::Deployed, None);
    let cache = cache_of(vec![
        inst("next", "s1", TargetStatus::Deployed, ActivityStatus::Queued, None),
        inst("elsewhere", "s2", TargetStatus::Deployed, ActivityStatus::Queued, None),
    ]);
    assert_eq!(find_replacement(&old, &cache).unwrap().unwrap().id, "next");
    let empty = cache_of(vec![]);
    assert!(find_replacement(&old, &empty).unwrap().is_none());
    let two = cache_of(vec![
        inst("n1", "s1", TargetStatus::Deployed, ActivityStatus::Queued, None),
        inst("n2", "s1", TargetStatus::Deployed, ActivityStatus::Created, None),
    ]);
    match find_replacement(&old, &two) {
        Err(DeployErr::CrudErr(e)) => assert_eq!(e.code(), Code::InternalServerError),
        other => panic!("unexpected {:?}", other),
    }
    assert!(matches_config_schema_and_next_action(
        &inst("n1", "s1", TargetStatus::Deployed, ActivityStatus::Queued, None),
        "s1",
        NextAction::Deploy,
        false,
        NOW
    ));
}

#[test]
fn file_ops_follow_the_file_path() {
    let i = inst("a", "s", TargetStatus::Deployed, ActivityStatus::Queued, Some("d/c.json"));
    match file_op(&i, true) {
        FileOp::Write { id, relative_filepath } => {
            assert_eq!(id, "a");
            assert_eq!(relative_filepath, "d/c.json");
        }
        other => panic!("unexpected {:?}", other),
    }
    match file_op(&i, false) {
        FileOp::Delete { relative_filepath } => assert_eq!(relative_filepath, "d/c.json"),
        other => panic!("unexpected {:?}", other),
    }
    let none = inst("a", "s", TargetStatus::Deployed, ActivityStatus::Queued, None);
    assert!(matches!(file_op(&none, true), FileOp::Nothing));
}

#[test]
fn after_op_without_file_ignores_the_outcome() {
    let i = inst("a", "s", TargetStatus::Deployed, ActivityStatus::Queued, None);
    let r = after_op(i, true, &Err(fs_err(false)), &settings(), NOW);
    assert_eq!(r.activity_status, ActivityStatus::Deployed);
    assert_eq!(r.attempts, 0);
}

fn drive(mut rollout: Rollout, outcomes: Vec<bool>, cache: &mut SingleThreadFileCache<ConfigInstance>) -> (DeployResults, Vec<String>) {
    let mut ops = Vec::new();
    let mut outcomes = outcomes.into_iter();
    while let Some(op) = rollout.pending_op() {
        ops.push(match op {
            FileOp::Nothing => "nothing".to_string(),
            FileOp::Write { id, .. } => format!("write {}", id),
            FileOp::Delete { relative_filepath } => format!("delete {}", relative_filepath),
        });
        let ok = outcomes.next().unwrap();
        let outcome = if ok { Ok(()) } else { Err(fs_err(false)) };
        assert!(rollout.can_advance(&outcome, &settings(), NOW));
        rollout = rollout.advance(outcome, cache, &settings(), NOW);
    }
    assert!(rollout.is_done());
    (rollout.finish(), ops)
}

#[test]
fn rollout_removes_old_then_deploys_new() {
    let old = inst("old", "s", TargetStatus::Removed, ActivityStatus::Deployed, Some("old.json"));
    let new = inst("new", "s", TargetStatus::Deployed, ActivityStatus::Queued, Some("new.json"));
    let mut cache = cache_of(vec![]);
    let (res, ops) = drive(Rollout::new(vec![old], vec![new]), vec![true, true], &mut cache);
    assert_eq!(ops, vec!["delete old.json", "write new"]);
    assert_eq!(res.to_remove[0].activity_status, ActivityStatus::Removed);
    assert_eq!(res.to_deploy[0].activity_status, ActivityStatus::Deployed);
    // the storage observer recorded both, as dirty
    assert_eq!(cache.size(), 2);
    assert_eq!(cache.get_dirty_entries().len(), 2);
}

#[test]
fn rollout_rolls_back_when_deploying_fails() {
    let old = inst("old", "s", TargetStatus::Removed, ActivityStatus::Deployed, Some("old.json"));
    let new = inst("new", "s", TargetStatus::Deployed, ActivityStatus::Queued, Some("new.json"));
    let mut cache = cache_of(vec![]);
    let (res, ops) = drive(Rollout::new(vec![old], vec![new]), vec![true, false, true, true], &mut cache);
    assert_eq!(ops, vec!["delete old.json", "write new", "delete new.json", "write old"]);
    // the old instance is back on the device, the new one retries later
    assert_eq!(res.to_remove[0].id, "old");
    assert_eq!(res.to_remove[0].activity_status, ActivityStatus::Deployed);
    assert_eq!(res.to_deploy[0].id, "new");
    assert_eq!(res.to_deploy[0].activity_status, ActivityStatus::Removed);
    assert_eq!(res.to_deploy[0].attempts, 1);
    assert_eq!(res.to_deploy[0].error_status, ErrorStatus::Retrying);
    assert_eq!(res.to_deploy[0].cooldown_ends_at, NOW + 30_000);
}

#[test]
fn rollout_stops_a_stage_at_its_first_failure() {
    let a = inst("a", "s", TargetStatus::Removed, ActivityStatus::Deployed, Some("a.json"));
    let b = inst("b", "s", TargetStatus::Removed, ActivityStatus::Deployed, Some("b.json"));
    let mut cache = cache_of(vec![]);
    let (res, ops) = drive(Rollout::new(vec![a, b], vec![]), vec![false], &mut cache);
    assert_eq!(ops, vec!["delete a.json"]);
    assert_eq!(res.to_remove.len(), 2);
    assert_eq!(res.to_remove[0].attempts, 1);
    // the second was handed back untouched
    assert_eq!(res.to_remove[1].activity_status, ActivityStatus::Deployed);
    assert_eq!(res.to_remove[1].attempts, 0);
}

#[test]
fn empty_rollout_is_done_at_once() {
    let rollout = Rollout::new(vec![], vec![]);
    assert!(rollout.is_done());
    assert_eq!(rollout.stage, Stage::Done);
    let res = rollout.finish();
    assert!(res.to_remove.is_empty() && res.to_deploy.is_empty());
    let e = DeployResults::empty();
    assert!(e.to_remove.is_empty() && e.to_deploy.is_empty());
}

#[test]
fn observer_records_instances() {
    let mut cache = cache_of(vec![]);
    let i = inst("a", "s", TargetStatus::Deployed, ActivityStatus::Queued, None);
    on_update(&mut cache, &i, NOW).unwrap();
    let e = cache.read_entry("a", false, NOW).unwrap();
    assert!(e.is_dirty);
    assert_eq!(e.created_at, NOW);
}

// ================================= APPLYING ====================================== //
#[test]
fn apply_one_without_action_does_nothing() {
    let mut cache = cache_of(vec![]);
    let i = inst("a", "s", TargetStatus::Deployed, ActivityStatus::Deployed, None);
    match apply_one(i, &mut cache, NOW) {
        Applying::Finished(res, Ok(())) => assert!(res.to_remove.is_empty() && res.to_deploy.is_empty()),
        other => panic!("unexpected {:?}", other),
    }
}

#[test]
fn apply_one_removal_waits_for_cooling_replacement() {
    let mut repl = inst("next", "s", TargetStatus::Deployed, ActivityStatus::Queued, None);
    repl.cooldown_ends_at = NOW + 10_000;
    let mut cache = cache_of(vec![repl]);
    let old = inst("old", "s", TargetStatus::Removed, ActivityStatus::Deployed, None);
    match apply_one(old, &mut cache, NOW) {
        Applying::Finished(res, Ok(())) => {
            assert!(res.to_remove.is_empty());
            assert_eq!(res.to_deploy[0].id, "old");
            assert_eq!(res.to_deploy[0].cooldown_ends_at, NOW + 10_000);
        }
        other => panic!("unexpected {:?}", other),
    }
    assert_eq!(cache.read_entry("old", false, NOW).unwrap().value.cooldown_ends_at, NOW + 10_000);
}

#[test]
fn applier_takes_instances_until_none_need_action() {
    let a = inst("a", "s", TargetStatus::Deployed, ActivityStatus::Queued, None);
    let mut applier = Applier::new(vec![a]);
    let mut cache = cache_of(vec![]);
    let mut taken = 0;
    while let Some(i) = applier.next_instance() {
        taken += 1;
        let res = match apply_one(i, &mut cache, NOW) {
            Applying::Finished(res, _) => res,
            Applying::Rolling(r) => drive(r, vec![true], &mut cache).0,
        };
        applier.absorb(res, NOW);
    }
    assert_eq!(taken, 1);
    let applied = applier.finish();
    assert_eq!(applied.len(), 1);
    assert_eq!(applied[0].activity_status, ActivityStatus::Deployed);
}

#[test]
fn applier_stops_after_its_maximum() {
    let a = inst("a", "s", TargetStatus::Deployed, ActivityStatus::Queued, None);
    let mut applier = Applier::new(vec![a.clone()]);
    let mut taken = 0u32;
    while let Some(i) = applier.next_instance() {
        taken += 1;
        // the instance keeps needing an action
        applier.absorb(DeployResults { to_remove: vec![], to_deploy: vec![i] }, NOW);
    }
    assert_eq!(taken, MAX_APPLY_ITERATIONS);
    assert!(applier.finish().is_empty());
}

#[test]
fn whole_rollout_keeps_instances_and_ends() {
    // every pattern of outcomes over two old and two new instances
    for mask in 0u32..256 {
        let olds = vec![
            inst("o1", "s", TargetStatus::Removed, ActivityStatus::Deployed, Some("o1.json")),
            inst("o2", "s", TargetStatus::Removed, ActivityStatus::Deployed, Some("o2.json")),
        ];
        let news = vec![
            inst("n1", "s", TargetStatus::Deployed, ActivityStatus::Queued, Some("n1.json")),
            inst("n2", "s", TargetStatus::Deployed, ActivityStatus::Queued, Some("n2.json")),
        ];
        let outcomes: Vec<bool> = (0..8).map(|b| mask & (1 << b) == 0).collect();
        let mut cache = cache_of(vec![]);
        let (res, ops) = drive(Rollout::new(olds, news), outcomes, &mut cache);
        assert!(ops.len() <= 8);
        let ids = |v: &Vec<ConfigInstance>| v.iter().map(|c| c.id.clone()).collect::<Vec<_>>();
        assert_eq!(ids(&res.to_remove), vec!["o1", "o2"]);
        assert_eq!(ids(&res.to_deploy), vec!["n1", "n2"]);
    }
}

#[test]
fn applied_instances_needed_no_action_when_recorded() {
    let a = inst("a", "s", TargetStatus::Deployed, ActivityStatus::Queued, None);
    let b = inst("b", "t", TargetStatus::Removed, ActivityStatus::Deployed, None);
    let mut applier = Applier::new(vec![a, b]);
    let mut cache = cache_of(vec![]);
    while let Some(i) = applier.next_instance() {
        let res = match apply_one(i, &mut cache, NOW) {
            Applying::Finished(res, _) => res,
            Applying::Rolling(r) => drive(r, vec![true, true], &mut cache).0,
        };
        applier.absorb(res, NOW);
    }
    let applied = applier.finish();
    let mut ids: Vec<String> = applied.iter().map(|c| c.id.clone()).collect();
    ids.sort();
    assert_eq!(ids, vec!["a", "b"]);
    for c in &applied {
        assert!(!is_action_required(next_action(c, true, NOW)));
    }
}
