//! The decisions of one sync: which instances to apply, and what the sync reports.

use vstd::prelude::*;
use crate::cache::file::{value_decisions, values_of, SingleThreadFileCache};
use crate::cache::entry::CacheEntry;
use crate::cache::table::select;
use crate::deploy::fsm::{action_required_at, spec_is_action_required, spec_next_action};
use crate::models::config_instance::ConfigInstance;
use crate::sync::errors::{SyncErr, SyncErrors};

verus! {

/// Which entries of `s` hold an instance that needs an action at `now`.
pub open spec fn action_flags(s: Seq<CacheEntry<ConfigInstance>>, now: i64) -> Seq<bool> {
    s.map_values(
        |e: CacheEntry<ConfigInstance>| spec_is_action_required(spec_next_action(e.value, true, now as int)),
    )
}

/// The cached instances that need an action at `now` (cooldowns counted), in stored
/// order.
pub fn instances_to_apply(cfg_inst_cache: &SingleThreadFileCache<ConfigInstance>, now: i64) -> (r: Vec<ConfigInstance>)
    ensures
        r@ == values_of(select(cfg_inst_cache@, action_flags(cfg_inst_cache@, now))),
{
    let filter = |instance: &ConfigInstance| -> (b: bool)
        ensures
            b == spec_is_action_required(spec_next_action(*instance, true, now as int)),
        { action_required_at(instance, now) };
    let r = cfg_inst_cache.find_where(filter);
    proof {
        let d = choose|d: Seq<bool>| value_decisions(filter, cfg_inst_cache@, d) && r@ == values_of(select(cfg_inst_cache@, d));
        assert(d =~= action_flags(cfg_inst_cache@, now));
    }
    r
}

/// What a sync reports given the errors of its parts: success when there were none,
/// and otherwise all of them together.
pub fn sync_result(errors: Vec<SyncErr>) -> (r: Result<(), SyncErr>)
    ensures
        errors@.len() == 0 ==> r is Ok,
        errors@.len() > 0 ==> (r matches Err(SyncErr::SyncErrors(e)) && e.source == errors),
{
    if errors.len() == 0 {
        Ok(())
    } else {
        Err(SyncErr::SyncErrors(Box::new(SyncErrors { source: errors })))
    }
}

} // verus!
