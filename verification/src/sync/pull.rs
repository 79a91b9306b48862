//! Pulling config instances from the backend into the agent's caches: which of the
//! instances the backend holds are new, which changed their target, and how both are
//! stored.

use vstd::prelude::*;
use crate::cache::entry::{is_dirty_false, CacheEntry, CacheValue};
use crate::cache::file::{spec_after_read, written_entry, SingleThreadFileCache};
use crate::cache::table::{keys_unique, lemma_put, lookup, spec_put};
use crate::http::config_instances::{
    ActivityStatusFilter, ConfigInstanceFilters, ConfigInstanceFiltersBuilder, IDFilter,
};
use crate::http::search::{texts, SearchOperator};
use crate::models::config_instance::{
    spec_from_backend, ActivityStatus, BackendConfigInstance, ConfigInstance,
};
use crate::sync::errors::{ConfigInstanceDataNotFoundErr, MissingExpandedInstancesErr, SyncErr};

verus! {

// ================================ STORING ======================================== //
/// `s` once `value` was written at `key` at `now` as seen by the backend (not dirty),
/// keeping the creation time of the entry it replaces.
pub open spec fn spec_store<V>(s: Seq<CacheEntry<V>>, key: String, value: V, now: i64) -> Seq<CacheEntry<V>> {
    spec_put(s, written_entry(lookup(s, key@), key, value, false, now))
}

/// Writes `value` at `key` at `now`, as seen by the backend.
pub fn store_clean<V: CacheValue>(cache: &mut SingleThreadFileCache<V>, key: String, value: V, now: i64)
    ensures
        final(cache)@ == spec_store(old(cache)@, key, value, now),
{
    let _ = cache.write(key, value, is_dirty_false, true, now);
}

/// The value stored at the key, if any.
pub open spec fn value_at<V>(s: Seq<CacheEntry<V>>, k: Seq<char>) -> Option<V> {
    match lookup(s, k) {
        Some(e) => Some(e.value),
        None => None,
    }
}

/// Reading an entry changes no value and no key.
pub proof fn lemma_read_keeps_values<V>(s: Seq<CacheEntry<V>>, key: Seq<char>, update: bool, now: i64)
    requires
        keys_unique(s),
    ensures
        keys_unique(spec_after_read(s, key, update, now)),
        forall|k: Seq<char>| #[trigger] value_at(spec_after_read(s, key, update, now), k) == value_at(s, k),
{
    match lookup(s, key) {
        Some(e) => if update {
            let e2 = CacheEntry { last_accessed: now, ..e };
            lemma_put(s, e2);
            assert(e2.key@ == key) by {
                crate::cache::table::lemma_key_index_unique(s, crate::cache::table::key_index(s, key));
            }
        },
        None => {},
    }
}

// ================================ CATEGORIZING =================================== //
/// The instances the backend holds, sorted: the ones the agent does not know, the
/// known ones whose target changed (as the agent will store them), and the rest.
#[derive(Debug)]
pub struct CategorizedConfigInstances {
    pub unknown: Vec<BackendConfigInstance>,
    pub update_target_status: Vec<ConfigInstance>,
    pub other: Vec<BackendConfigInstance>,
}

/// The sorting of `insts` against the values stored in `s`.
pub open spec fn spec_categorize(s: Seq<CacheEntry<ConfigInstance>>, insts: Seq<BackendConfigInstance>) -> (
    Seq<BackendConfigInstance>,
    Seq<ConfigInstance>,
    Seq<BackendConfigInstance>,
)
    decreases insts.len(),
{
    if insts.len() == 0 {
        (Seq::empty(), Seq::empty(), Seq::empty())
    } else {
        let (u, t, o) = spec_categorize(s, insts.drop_last());
        let b = insts.last();
        match value_at(s, b.id@) {
            None => (u.push(b), t, o),
            Some(c) => if c.target_status != b.target_status {
                (u, t.push(ConfigInstance { target_status: b.target_status, ..c }), o)
            } else {
                (u, t, o.push(b))
            },
        }
    }
}

/// `s` after the entries of `insts` were read in turn at `now`.
pub open spec fn spec_read_all(s: Seq<CacheEntry<ConfigInstance>>, insts: Seq<BackendConfigInstance>, now: i64) -> Seq<
    CacheEntry<ConfigInstance>,
>
    decreases insts.len(),
{
    if insts.len() == 0 {
        s
    } else {
        spec_after_read(spec_read_all(s, insts.drop_last(), now), insts.last().id@, true, now)
    }
}

/// Sorts the instances the backend holds against the cache of config instances,
/// reading each one's entry at `now`.
pub fn categorize_instances(
    cfg_inst_cache: &mut SingleThreadFileCache<ConfigInstance>,
    unremoved_insts: Vec<BackendConfigInstance>,
    now: i64,
) -> (r: CategorizedConfigInstances)
    ensures
        (r.unknown@, r.update_target_status@, r.other@) == spec_categorize(old(cfg_inst_cache)@, unremoved_insts@),
        final(cfg_inst_cache)@ == spec_read_all(old(cfg_inst_cache)@, unremoved_insts@, now),
{
    let mut categorized = CategorizedConfigInstances {
        unknown: Vec::new(),
        update_target_status: Vec::new(),
        other: Vec::new(),
    };
    proof {
        use_type_invariant(&*cfg_inst_cache);
    }
    let ghost s0 = cfg_inst_cache@;
    let mut i: usize = 0;
    while i < unremoved_insts.len()
        invariant
            0 <= i <= unremoved_insts@.len(),
            keys_unique(s0),
            keys_unique(cfg_inst_cache@),
            cfg_inst_cache@ == spec_read_all(s0, unremoved_insts@.take(i as int), now),
            forall|k: Seq<char>| #[trigger] value_at(cfg_inst_cache@, k) == value_at(s0, k),
            (categorized.unknown@, categorized.update_target_status@, categorized.other@) == spec_categorize(
                s0,
                unremoved_insts@.take(i as int),
            ),
        decreases unremoved_insts@.len() - i,
    {
        let server_inst = unremoved_insts[i].duplicate();
        proof {
            let t = unremoved_insts@.take(i + 1);
            assert(t.drop_last() =~= unremoved_insts@.take(i as int));
            assert(t.last() == unremoved_insts@[i as int]);
            lemma_read_keeps_values(cfg_inst_cache@, server_inst.id@, true, now);
            assert(value_at(cfg_inst_cache@, server_inst.id@) == value_at(s0, server_inst.id@));
        }
        // check if the config instance is known
        let found = cfg_inst_cache.read_optional(server_inst.id.as_str(), now);
        let mut storage_inst = match found {
            Ok(Some(storage_inst)) => storage_inst,
            _ => {
                categorized.unknown.push(server_inst);
                i = i + 1;
                continue;
            },
        };
        // check if the target status matches
        if storage_inst.target_status != server_inst.target_status {
            storage_inst.target_status = server_inst.target_status;
            categorized.update_target_status.push(storage_inst);
        } else {
            categorized.other.push(server_inst);
        }
        i = i + 1;
    }
    proof {
        assert(unremoved_insts@.take(unremoved_insts@.len() as int) =~= unremoved_insts@);
    }
    categorized
}

// ================================ FETCHING ======================================= //
/// The filters for the device's instances that are queued or deployed.
pub fn unremoved_instances_filters(device_id: String) -> (r: ConfigInstanceFilters)
    ensures
        r.device_id == device_id,
        r.ids is None,
        r.config_schema_ids is None,
        r.target_statuses is None,
        r.activity_statuses matches Some(f) && !f.not && f.op == SearchOperator::Equals && f.val@ == seq![
            ActivityStatus::Queued,
            ActivityStatus::Deployed,
        ],
        r.error_statuses is None,
{
    let mut val: Vec<ActivityStatus> = Vec::new();
    val.push(ActivityStatus::Queued);
    val.push(ActivityStatus::Deployed);
    proof {
        assert(val@ =~= seq![ActivityStatus::Queued, ActivityStatus::Deployed]);
    }
    ConfigInstanceFiltersBuilder::new(device_id).with_activity_status_filter(
        ActivityStatusFilter { not: false, op: SearchOperator::Equals, val },
    ).build()
}

/// The filters for the device's instances with the identifiers; none when there are no
/// identifiers (nothing needs fetching).
pub fn instances_with_ids_filters(device_id: String, ids: Vec<String>) -> (r: Option<ConfigInstanceFilters>)
    ensures
        ids@.len() == 0 ==> r is None,
        ids@.len() > 0 ==> (r matches Some(f) && f.device_id == device_id && f.ids == Some(
            IDFilter { not: false, op: SearchOperator::Equals, val: ids },
        ) && f.config_schema_ids is None && f.target_statuses is None && f.activity_statuses is None
            && f.error_statuses is None),
{
    if ids.len() == 0 {
        return None;
    }
    Some(
        ConfigInstanceFiltersBuilder::new(device_id).with_id_filter(
            IDFilter { not: false, op: SearchOperator::Equals, val: ids },
        ).build(),
    )
}

/// The expansion that asks the backend to include each instance's data.
pub fn content_expansions() -> (r: Vec<String>)
    ensures
        texts(r@) == seq!["content"@],
{
    let mut r: Vec<String> = Vec::new();
    r.push("content".to_string());
    proof {
        assert(texts(r@) =~= seq!["content"@]);
    }
    r
}

/// The identifiers of the instances.
pub open spec fn backend_ids(s: Seq<BackendConfigInstance>) -> Seq<Seq<char>> {
    s.map_values(|b: BackendConfigInstance| b.id@)
}

/// The identifiers of the instances, in order.
pub fn ids_of(insts: &Vec<BackendConfigInstance>) -> (r: Vec<String>)
    ensures
        texts(r@) == backend_ids(insts@),
{
    let mut r: Vec<String> = Vec::new();
    let mut i: usize = 0;
    while i < insts.len()
        invariant
            0 <= i <= insts@.len(),
            texts(r@) == backend_ids(insts@.take(i as int)),
        decreases insts@.len() - i,
    {
        r.push(insts[i].id.clone());
        proof {
            assert(backend_ids(insts@.take(i + 1)) =~= backend_ids(insts@.take(i as int)).push(insts@[i as int].id@));
            assert(texts(r@) =~= texts(r@.drop_last()).push(r@.last()@));
        }
        i = i + 1;
    }
    proof {
        assert(insts@.take(insts@.len() as int) =~= insts@);
    }
    r
}

/// The instances fetched with their data: an error when the backend sent a different
/// number than were asked for.
pub fn check_expanded_instances(ids: Vec<String>, cfg_insts: Vec<BackendConfigInstance>) -> (r: Result<
    Vec<BackendConfigInstance>,
    SyncErr,
>)
    ensures
        cfg_insts@.len() == ids@.len() ==> r == Ok::<Vec<BackendConfigInstance>, SyncErr>(cfg_insts),
        cfg_insts@.len() != ids@.len() ==> (r matches Err(SyncErr::MissingExpandedInstances(e)) && e.expected_ids
            == ids && texts(e.actual_ids@) == backend_ids(cfg_insts@)),
{
    if cfg_insts.len() != ids.len() {
        let actual_ids = ids_of(&cfg_insts);
        return Err(
            SyncErr::MissingExpandedInstances(Box::new(MissingExpandedInstancesErr { expected_ids: ids, actual_ids })),
        );
    }
    Ok(cfg_insts)
}

// ================================ STORING NEW ONES =============================== //
/// The caches of instances and of their data after the new instances `insts` were
/// stored in turn at `now`, each with its data.
pub open spec fn spec_store_unknown(
    cs: Seq<CacheEntry<ConfigInstance>>,
    ds: Seq<CacheEntry<String>>,
    insts: Seq<BackendConfigInstance>,
    now: i64,
) -> (Seq<CacheEntry<ConfigInstance>>, Seq<CacheEntry<String>>)
    decreases insts.len(),
{
    if insts.len() == 0 {
        (cs, ds)
    } else {
        let (c1, d1) = spec_store_unknown(cs, ds, insts.drop_last(), now);
        let b = insts.last();
        (
            spec_store(c1, b.id, spec_from_backend(b), now),
            spec_store(d1, b.id, or_empty(b.content), now),
        )
    }
}

/// The data, or nothing.
pub open spec fn or_empty(content: Option<String>) -> String {
    match content {
        Some(c) => c,
        None => arbitrary(),
    }
}

/// Stores the new instances and their data in turn at `now`. An instance sent without
/// its data stops the work with an error naming it; the ones before it stay stored.
#[verifier::spinoff_prover]
pub fn add_unknown_instances_to_storage(
    cfg_inst_cache: &mut SingleThreadFileCache<ConfigInstance>,
    cfg_inst_data_cache: &mut SingleThreadFileCache<String>,
    unknown_insts: Vec<BackendConfigInstance>,
    now: i64,
) -> (r: Result<(), SyncErr>)
    ensures
        (forall|i: int| 0 <= i < unknown_insts@.len() ==> (#[trigger] unknown_insts@[i]).content is Some) ==> {
            &&& r is Ok
            &&& (final(cfg_inst_cache)@, final(cfg_inst_data_cache)@) == spec_store_unknown(
                old(cfg_inst_cache)@,
                old(cfg_inst_data_cache)@,
                unknown_insts@,
                now,
            )
        },
        (exists|i: int| 0 <= i < unknown_insts@.len() && (#[trigger] unknown_insts@[i]).content is None) ==> exists|k: int|
            {
                &&& 0 <= k < unknown_insts@.len()
                &&& unknown_insts@[k].content is None
                &&& forall|j: int| 0 <= j < k ==> (#[trigger] unknown_insts@[j]).content is Some
                &&& r matches Err(SyncErr::ConfigInstanceDataNotFound(e))
                &&& e.instance_id == unknown_insts@[k].id
                &&& (final(cfg_inst_cache)@, final(cfg_inst_data_cache)@) == spec_store_unknown(
                    old(cfg_inst_cache)@,
                    old(cfg_inst_data_cache)@,
                    unknown_insts@.take(k),
                    now,
                )
            },
{
    let ghost c0 = cfg_inst_cache@;
    let ghost d0 = cfg_inst_data_cache@;
    let mut i: usize = 0;
    while i < unknown_insts.len()
        invariant
            0 <= i <= unknown_insts@.len(),
            forall|j: int| 0 <= j < i ==> (#[trigger] unknown_insts@[j]).content is Some,
            c0 == old(cfg_inst_cache)@,
            d0 == old(cfg_inst_data_cache)@,
            (cfg_inst_cache@, cfg_inst_data_cache@) == spec_store_unknown(c0, d0, unknown_insts@.take(i as int), now),
        decreases unknown_insts@.len() - i,
    {
        let unknown_inst = unknown_insts[i].duplicate();
        proof {
            let t = unknown_insts@.take(i + 1);
            assert(t.drop_last() =~= unknown_insts@.take(i as int));
            assert(t.last() == unknown_insts@[i as int]);
        }
        // an instance without its data means the data was not asked for, so none of
        // the instances would have it: stop here
        let data = match &unknown_inst.content {
            Some(data) => data.clone(),
            None => {
                let r = Err(
                    SyncErr::ConfigInstanceDataNotFound(
                        Box::new(ConfigInstanceDataNotFoundErr { instance_id: unknown_inst.id.clone() }),
                    ),
                );
                proof {
                    let k = i as int;
                    assert(unknown_insts@[k].content is None);
                    assert(forall|j: int| 0 <= j < k ==> (#[trigger] unknown_insts@[j]).content is Some);
                }
                return r;
            },
        };
        let ghost b = unknown_insts@[i as int];
        let ghost before = spec_store_unknown(c0, d0, unknown_insts@.take(i as int), now);
        let id = unknown_inst.id.clone();
        store_clean(cfg_inst_data_cache, id, data, now);
        let id = unknown_inst.id.clone();
        let storage_inst = ConfigInstance::from_backend(unknown_inst);
        store_clean(cfg_inst_cache, id, storage_inst, now);
        proof {
            assert(data == or_empty(b.content));
            assert(storage_inst == spec_from_backend(b));
            assert(spec_store_unknown(c0, d0, unknown_insts@.take(i + 1), now) == (
                spec_store(before.0, b.id, spec_from_backend(b), now),
                spec_store(before.1, b.id, or_empty(b.content), now),
            ));
        }
        i = i + 1;
    }
    proof {
        assert(unknown_insts@.take(unknown_insts@.len() as int) =~= unknown_insts@);
    }
    Ok(())
}

// ============================ STORING NEW TARGETS ================================ //
/// `s` after the new targets of `insts` were stored in turn at `now`: an instance the
/// cache holds takes the target and the update stamp of its counterpart, and is read
/// and written (not dirty) at `now`; the others are skipped.
pub open spec fn spec_update_targets(s: Seq<CacheEntry<ConfigInstance>>, insts: Seq<ConfigInstance>, now: i64) -> Seq<
    CacheEntry<ConfigInstance>,
>
    decreases insts.len(),
{
    if insts.len() == 0 {
        s
    } else {
        let s1 = spec_update_targets(s, insts.drop_last(), now);
        let c = insts.last();
        match lookup(s1, c.id@) {
            None => s1,
            Some(e) => {
                let s2 = spec_after_read(s1, c.id@, true, now);
                let updated = ConfigInstance {
                    target_status: c.target_status,
                    updated_by_id: c.updated_by_id,
                    updated_at: c.updated_at,
                    ..e.value
                };
                spec_store(s2, c.id, updated, now)
            },
        }
    }
}

/// Stores the new targets of the instances at `now`.
pub fn update_target_status_instances(
    cfg_inst_cache: &mut SingleThreadFileCache<ConfigInstance>,
    update_target_status: Vec<ConfigInstance>,
    now: i64,
) -> (r: Result<(), SyncErr>)
    ensures
        r is Ok,
        final(cfg_inst_cache)@ == spec_update_targets(old(cfg_inst_cache)@, update_target_status@, now),
{
    let ghost s0 = cfg_inst_cache@;
    let mut i: usize = 0;
    while i < update_target_status.len()
        invariant
            0 <= i <= update_target_status@.len(),
            cfg_inst_cache@ == spec_update_targets(s0, update_target_status@.take(i as int), now),
        decreases update_target_status@.len() - i,
    {
        let cfg_inst = update_target_status[i].duplicate();
        proof {
            let t = update_target_status@.take(i + 1);
            assert(t.drop_last() =~= update_target_status@.take(i as int));
            assert(t.last() == update_target_status@[i as int]);
        }
        let cfg_inst_id = cfg_inst.id.clone();
        // read the config instance from the cache to update only select fields
        let cache_inst = match cfg_inst_cache.read(cfg_inst_id.as_str(), now) {
            Ok(cache_inst) => cache_inst,
            Err(_) => {
                i = i + 1;
                continue;
            },
        };
        let updated_inst = ConfigInstance {
            target_status: cfg_inst.target_status,
            updated_by_id: cfg_inst.updated_by_id,
            updated_at: cfg_inst.updated_at,
            ..cache_inst
        };
        // write the updated config instance to the cache
        store_clean(cfg_inst_cache, cfg_inst_id, updated_inst, now);
        i = i + 1;
    }
    proof {
        assert(update_target_status@.take(update_target_status@.len() as int) =~= update_target_status@);
    }
    Ok(())
}

} // verus!
