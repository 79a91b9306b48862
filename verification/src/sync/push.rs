//! Pushing the changes the agent made to config instances back to the backend.

use vstd::prelude::*;
use crate::cache::entry::CacheEntry;
use crate::cache::file::{dirty_flags, SingleThreadFileCache};
use crate::cache::table::select;
use crate::models::config_instance::{ActivityStatus, ConfigInstance, ErrorStatus};
use crate::sync::pull::{spec_store, store_clean};

verus! {

/// The update the backend is sent for one config instance: its new statuses.
#[derive(Debug, Clone, PartialEq, Eq)]
pub struct ConfigInstanceUpdate {
    pub id: String,
    pub activity_status: ActivityStatus,
    pub error_status: ErrorStatus,
}

/// The update for the instance of an entry.
pub open spec fn spec_update_of(e: CacheEntry<ConfigInstance>) -> ConfigInstanceUpdate {
    ConfigInstanceUpdate {
        id: e.value.id,
        activity_status: e.value.activity_status,
        error_status: e.value.error_status,
    }
}

/// `s` after the entries `es` were written back, in turn, as seen by the backend.
pub open spec fn spec_mark_pushed(s: Seq<CacheEntry<ConfigInstance>>, es: Seq<CacheEntry<ConfigInstance>>, now: i64) -> Seq<
    CacheEntry<ConfigInstance>,
>
    decreases es.len(),
{
    if es.len() == 0 {
        s
    } else {
        let e = es.last();
        spec_store(spec_mark_pushed(s, es.drop_last(), now), e.value.id, e.value, now)
    }
}

/// The updates to send for the instances the backend has not seen, in stored order;
/// each instance is stored again at `now` as seen by the backend (whether or not its
/// update then reaches the backend, as a failed update is not retried within a sync).
pub fn push_config_instances(cfg_inst_cache: &mut SingleThreadFileCache<ConfigInstance>, now: i64) -> (r: Vec<
    ConfigInstanceUpdate,
>)
    ensures
        ({
            let dirty = select(old(cfg_inst_cache)@, dirty_flags(old(cfg_inst_cache)@));
            &&& r@ == dirty.map_values(|e: CacheEntry<ConfigInstance>| spec_update_of(e))
            &&& final(cfg_inst_cache)@ == spec_mark_pushed(old(cfg_inst_cache)@, dirty, now)
        }),
{
    // get all unsynced instances
    let unsynced_entries = cfg_inst_cache.get_dirty_entries();
    let ghost s0 = cfg_inst_cache@;
    let mut updates: Vec<ConfigInstanceUpdate> = Vec::new();
    let mut i: usize = 0;
    while i < unsynced_entries.len()
        invariant
            0 <= i <= unsynced_entries@.len(),
            s0 == old(cfg_inst_cache)@,
            unsynced_entries@ == select(s0, dirty_flags(s0)),
            updates@ == unsynced_entries@.take(i as int).map_values(|e: CacheEntry<ConfigInstance>| spec_update_of(e)),
            cfg_inst_cache@ == spec_mark_pushed(s0, unsynced_entries@.take(i as int), now),
        decreases unsynced_entries@.len() - i,
    {
        let inst = unsynced_entries[i].value.duplicate();
        proof {
            let t = unsynced_entries@.take(i + 1);
            assert(t.drop_last() =~= unsynced_entries@.take(i as int));
            assert(t.last() == unsynced_entries@[i as int]);
        }
        // define the updates
        updates.push(
            ConfigInstanceUpdate {
                id: inst.id.clone(),
                activity_status: inst.activity_status,
                error_status: inst.error_status,
            },
        );
        // update the cache
        let id = inst.id.clone();
        store_clean(cfg_inst_cache, id, inst, now);
        proof {
            assert(updates@ =~= unsynced_entries@.take(i + 1).map_values(
                |e: CacheEntry<ConfigInstance>| spec_update_of(e),
            ));
        }
        i = i + 1;
    }
    proof {
        assert(unsynced_entries@.take(unsynced_entries@.len() as int) =~= unsynced_entries@);
    }
    updates
}

} // verus!
