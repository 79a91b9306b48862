//! Applying config instances: what must leave the device before an instance is
//! deployed, what replaces an instance that is removed, and the loop that drives the
//! instances to their targets.

use vstd::prelude::*;
use crate::cache::entry::CacheEntry;
use crate::cache::errors::CacheErr;
use crate::cache::file::{value_decisions, values_of, written_entry, SingleThreadFileCache};
use crate::cache::table::{lookup, select, spec_put};
use crate::crud::config_instance::{
    matches_config_schema_and_activity_status, matches_filepath_and_activity_status,
    spec_matches_config_schema_and_activity_status, spec_matches_filepath_and_activity_status,
};
use crate::deploy::errors::{ConflictingDeploymentsErr, DeployCrudErr, DeployErr, InstanceNotDeployableErr};
use crate::deploy::filesys::{spec_enter, spec_rollout_wf, DeployResults, Rollout, Stage};
use crate::deploy::keyed::{by_id, ids_unique, insert_by_id, remove_by_id};
use crate::deploy::fsm::{
    is_action_required, next_action, spec_is_action_required, spec_next_action, NextAction,
};
use crate::models::config_instance::{copy_opt_string, ActivityStatus, ConfigInstance, TargetStatus};
use crate::strings::str_eq;
use crate::time::valid_timestamp;

verus! {

/// Whether writing `new` over the entry `old` leaves changes the backend has not seen:
/// a new entry is dirty, and so is one that was dirty or whose activity or error status
/// changes.
pub open spec fn spec_is_dirty(old: Option<CacheEntry<ConfigInstance>>, new: ConfigInstance) -> bool {
    match old {
        None => true,
        Some(o) => o.is_dirty || o.value.activity_status != new.activity_status || o.value.error_status
            != new.error_status,
    }
}

pub fn is_dirty(old: Option<&CacheEntry<ConfigInstance>>, new: &ConfigInstance) -> (r: bool)
    ensures
        r == spec_is_dirty(
            match old {
                Some(o) => Some(*o),
                None => None,
            },
            *new,
        ),
        old is None ==> r,
        old matches Some(o) && o.is_dirty ==> r,
        old matches Some(o) && (o.value.activity_status != new.activity_status || o.value.error_status
            != new.error_status) ==> r,
        old matches Some(o) && !o.is_dirty && o.value.activity_status == new.activity_status
            && o.value.error_status == new.error_status ==> !r,
{
    let old = match old {
        Some(old) => old,
        None => return true,
    };
    old.is_dirty || old.value.activity_status != new.activity_status || old.value.error_status
        != new.error_status
}

/// The cache `after` is `before` once the instance was stored at `now` by the storage
/// observer: it keeps the creation time of the entry it replaces, and its dirtiness
/// follows `spec_is_dirty`.
pub open spec fn spec_observed(
    before: Seq<CacheEntry<ConfigInstance>>,
    after: Seq<CacheEntry<ConfigInstance>>,
    instance: ConfigInstance,
    now: i64,
) -> bool {
    let old = lookup(before, instance.id@);
    after == spec_put(before, written_entry(old, instance.id, instance, spec_is_dirty(old, instance), now))
}

/// The storage observer: records the new state of `instance` in the cache of config
/// instances at `now`.
pub fn on_update(
    cfg_inst_cache: &mut SingleThreadFileCache<ConfigInstance>,
    instance: &ConfigInstance,
    now: i64,
) -> (r: Result<(), DeployErr>)
    ensures
        r is Ok,
        spec_observed(old(cfg_inst_cache)@, final(cfg_inst_cache)@, *instance, now),
{
    let overwrite = true;
    let written = cfg_inst_cache.write(instance.id.clone(), instance.duplicate(), is_dirty, overwrite, now);
    match written {
        Ok(()) => Ok(()),
        Err(e) => Err(DeployErr::CrudErr(DeployCrudErr { source: e })),
    }
}

// ================================ CONFLICTS ====================================== //
/// `c` stands in the way of deploying `inst`: it is deployed, and it belongs to the
/// same schema or is written to the same file.
pub open spec fn spec_is_conflict(c: ConfigInstance, inst: ConfigInstance) -> bool {
    spec_is_conflict_with(c, inst.config_schema_id@, inst.relative_filepath)
}

/// `c` is deployed, and it belongs to the schema or is written to the file.
pub open spec fn spec_is_conflict_with(
    c: ConfigInstance,
    config_schema_id: Seq<char>,
    filepath: Option<String>,
) -> bool {
    ||| spec_matches_config_schema_and_activity_status(c, config_schema_id, ActivityStatus::Deployed)
    ||| match filepath {
        Some(p) => spec_matches_filepath_and_activity_status(c, p@, ActivityStatus::Deployed),
        None => false,
    }
}

/// Which entries of `s` stand in the way of deploying `inst`.
pub open spec fn conflict_flags(s: Seq<CacheEntry<ConfigInstance>>, inst: ConfigInstance) -> Seq<bool> {
    s.map_values(|e: CacheEntry<ConfigInstance>| spec_is_conflict(e.value, inst))
}

/// The cached instances that stand in the way of deploying `inst`, in stored order.
pub open spec fn spec_conflicts(s: Seq<CacheEntry<ConfigInstance>>, inst: ConfigInstance) -> Seq<ConfigInstance> {
    values_of(select(s, conflict_flags(s, inst)))
}

/// The instance wants to be on the device.
pub open spec fn wants_deployed(c: ConfigInstance) -> bool {
    c.target_status == TargetStatus::Deployed
}

/// The instances to remove before `cfg_inst` is deployed: the deployed instances of
/// its schema or of its file. It is an error when one of them wants to stay deployed;
/// the error names `cfg_inst` and the first such instance.
pub fn find_instances_to_replace(
    cfg_inst: &ConfigInstance,
    all_cfg_insts: &SingleThreadFileCache<ConfigInstance>,
) -> (r: Result<Vec<ConfigInstance>, DeployErr>)
    ensures
        ({
            let cs = spec_conflicts(all_cfg_insts@, *cfg_inst);
            &&& (forall|i: int| 0 <= i < cs.len() ==> !wants_deployed(#[trigger] cs[i])) ==> (r matches Ok(v)
                && v@ == cs)
            &&& (exists|i: int| 0 <= i < cs.len() && wants_deployed(#[trigger] cs[i])) ==> exists|i: int|
                {
                    &&& 0 <= i < cs.len()
                    &&& wants_deployed(cs[i])
                    &&& forall|j: int| 0 <= j < i ==> !wants_deployed(#[trigger] cs[j])
                    &&& r matches Err(DeployErr::ConflictingDeploymentsErr(e))
                    &&& e.instances@ == seq![*cfg_inst, cs[i]]
                }
        }),
{
    let opt_filepath = copy_opt_string(&cfg_inst.relative_filepath);
    let cfg_sch_id = cfg_inst.config_schema_id.clone();
    let filter = move |c: &ConfigInstance| -> (r: bool)
        ensures
            r == spec_is_conflict_with(*c, cfg_sch_id@, opt_filepath@),
        {
            // is deployed and has same config schema
            if matches_config_schema_and_activity_status(c, cfg_sch_id.as_str(), ActivityStatus::Deployed) {
                return true;
            }
            // is deployed and has same filepath
            let filepath = match &opt_filepath {
                Some(filepath) => filepath,
                None => return false,
            };
            matches_filepath_and_activity_status(c, filepath.as_str(), ActivityStatus::Deployed)
        };
    let conflicts = all_cfg_insts.find_where(filter);
    proof {
        let d = choose|d: Seq<bool>|
            value_decisions(filter, all_cfg_insts@, d) && conflicts@ == values_of(select(all_cfg_insts@, d));
        assert(d =~= conflict_flags(all_cfg_insts@, *cfg_inst));
    }
    // validate that all conflicts do not desire to be deployed
    let mut i: usize = 0;
    while i < conflicts.len()
        invariant
            0 <= i <= conflicts@.len(),
            conflicts@ == spec_conflicts(all_cfg_insts@, *cfg_inst),
            forall|j: int| 0 <= j < i ==> !wants_deployed(#[trigger] conflicts@[j]),
        decreases conflicts@.len() - i,
    {
        if conflicts[i].target_status == TargetStatus::Deployed {
            let mut instances: Vec<ConfigInstance> = Vec::new();
            instances.push(cfg_inst.duplicate());
            instances.push(conflicts[i].duplicate());
            proof {
                assert(instances@ =~= seq![*cfg_inst, conflicts@[i as int]]);
            }
            return Err(DeployErr::ConflictingDeploymentsErr(ConflictingDeploymentsErr { instances }));
        }
        i = i + 1;
    }
    Ok(conflicts)
}

// ================================ REPLACEMENT ==================================== //
/// The instance belongs to the schema and its next action, without cooldowns, is
/// `next_action`.
pub open spec fn spec_matches_config_schema_and_next_action(
    instance: ConfigInstance,
    config_schema_id: Seq<char>,
    next_action: NextAction,
) -> bool {
    instance.config_schema_id@ == config_schema_id && spec_next_action(instance, false, 0) == next_action
}

/// Whether the instance belongs to the schema and its next action at `now` is
/// `next_action` (with cooldowns counted when `use_cooldown` holds).
pub fn matches_config_schema_and_next_action(
    instance: &ConfigInstance,
    config_schema_id: &str,
    next_action_wanted: NextAction,
    use_cooldown: bool,
    now: i64,
) -> (r: bool)
    requires
        use_cooldown ==> instance.wf() && valid_timestamp(now as int),
    ensures
        r == (instance.config_schema_id@ == config_schema_id@ && spec_next_action(*instance, use_cooldown, now as int)
            == next_action_wanted),
        !use_cooldown ==> r == spec_matches_config_schema_and_next_action(
            *instance,
            config_schema_id@,
            next_action_wanted,
        ),
{
    str_eq(instance.config_schema_id.as_str(), config_schema_id) && next_action(instance, use_cooldown, now)
        == next_action_wanted
}

/// Which entries of `s` could replace `inst`: same schema, waiting to be deployed.
pub open spec fn replacement_flags(s: Seq<CacheEntry<ConfigInstance>>, inst: ConfigInstance) -> Seq<bool> {
    s.map_values(
        |e: CacheEntry<ConfigInstance>|
            spec_matches_config_schema_and_next_action(e.value, inst.config_schema_id@, NextAction::Deploy),
    )
}

/// The cached instances that could replace `inst`, in stored order.
pub open spec fn spec_replacements(s: Seq<CacheEntry<ConfigInstance>>, inst: ConfigInstance) -> Seq<ConfigInstance> {
    values_of(select(s, replacement_flags(s, inst)))
}

/// The name of the replacement search, as errors report it.
pub open spec fn replacement_filter_name() -> Seq<char> {
    "filter by config schema and next action"@
}

/// The instance of the same schema that waits to be deployed, to take the place of
/// `cfg_inst` once it is removed; an error when there are several.
pub fn find_replacement(
    cfg_inst: &ConfigInstance,
    all_cfg_insts: &SingleThreadFileCache<ConfigInstance>,
) -> (r: Result<Option<ConfigInstance>, DeployErr>)
    ensures
        ({
            let m = spec_replacements(all_cfg_insts@, *cfg_inst);
            &&& m.len() == 0 ==> (r matches Ok(None))
            &&& m.len() == 1 ==> (r matches Ok(Some(x)) && x == m[0])
            &&& m.len() > 1 ==> (r matches Err(DeployErr::CrudErr(e)) && e.source matches CacheErr::FoundTooManyCacheElements(
                f,
            ) && f.expected_count == 1 && f.actual_count == m.len() && f.filter_name@ == replacement_filter_name())
        }),
{
    let cfg_sch_id = cfg_inst.config_schema_id.clone();
    let filter = move |c: &ConfigInstance| -> (r: bool)
        ensures
            r == spec_matches_config_schema_and_next_action(*c, cfg_sch_id@, NextAction::Deploy),
        {
            // has same config schema and desires to be deployed
            matches_config_schema_and_next_action(c, cfg_sch_id.as_str(), NextAction::Deploy, false, 0)
        };
    let found = all_cfg_insts.find_one_optional("filter by config schema and next action", filter);
    proof {
        reveal_strlit("filter by config schema and next action");
        let d = choose|d: Seq<bool>|
            value_decisions(filter, all_cfg_insts@, d) && crate::cache::file::found_at_most_one(
                values_of(select(all_cfg_insts@, d)),
                found,
                replacement_filter_name(),
            );
        assert(d =~= replacement_flags(all_cfg_insts@, *cfg_inst));
    }
    match found {
        Ok(x) => Ok(x),
        Err(e) => Err(DeployErr::CrudErr(DeployCrudErr { source: e })),
    }
}

// ================================== APPLYING ===================================== //
/// Every cached instance has representable instants.
pub open spec fn cache_wf(s: Seq<CacheEntry<ConfigInstance>>) -> bool {
    forall|i: int| 0 <= i < s.len() ==> (#[trigger] s[i]).value.wf()
}

/// Every instance has representable instants.
pub open spec fn all_wf(s: Seq<ConfigInstance>) -> bool {
    forall|i: int| 0 <= i < s.len() ==> (#[trigger] s[i]).wf()
}

/// What taking up one instance gave.
#[derive(Debug)]
pub enum Applying {
    /// The instance was handled without file work: what the instances became, and the
    /// error that stopped the work, if any.
    Finished(DeployResults, Result<(), DeployErr>),
    /// The instance needs the file work of this rollout.
    Rolling(Rollout),
}

/// Starts deploying `cfg_inst` at `now`: the deployed instances in its way are removed
/// first.
fn deploy_one(
    cfg_inst: ConfigInstance,
    all_cfg_insts: &SingleThreadFileCache<ConfigInstance>,
    now: i64,
) -> (r: Applying)
    requires
        cfg_inst.wf(),
        valid_timestamp(now as int),
        spec_next_action(cfg_inst, true, now as int) == NextAction::Deploy,
    ensures
        ({
            let cs = spec_conflicts(all_cfg_insts@, cfg_inst);
            &&& (forall|i: int| 0 <= i < cs.len() ==> !wants_deployed(#[trigger] cs[i])) ==> (r matches Applying::Rolling(ro)
                && ro@ == spec_enter(Stage::RemoveOld, cs, seq![cfg_inst]) && spec_rollout_wf(ro@))
            &&& (exists|i: int| 0 <= i < cs.len() && wants_deployed(#[trigger] cs[i])) ==> (r matches Applying::Finished(
                res,
                Err(DeployErr::ConflictingDeploymentsErr(_)),
            ) && res.to_remove@.len() == 0 && res.to_deploy@.len() == 0)
        }),
{
    let next = next_action(&cfg_inst, true, now);
    if next != NextAction::Deploy {
        return Applying::Finished(
            DeployResults::empty(),
            Err(DeployErr::InstanceNotDeployableErr(InstanceNotDeployableErr { instance: cfg_inst, next_action: next })),
        );
    }
    // find the conflicts to remove
    let conflicts = match find_instances_to_replace(&cfg_inst, all_cfg_insts) {
        Ok(conflicts) => conflicts,
        Err(e) => return Applying::Finished(DeployResults::empty(), Err(e)),
    };
    // remove the old instances and deploy the new instance
    let mut to_deploy: Vec<ConfigInstance> = Vec::new();
    to_deploy.push(cfg_inst);
    proof {
        assert(to_deploy@ =~= seq![cfg_inst]);
    }
    Applying::Rolling(Rollout::new(conflicts, to_deploy))
}

/// Starts removing `cfg_inst` at `now`: an instance of its schema that waits to be
/// deployed replaces it. While that replacement cools down, `cfg_inst` is given the
/// same cooldown instead, so that the two change places together.
fn remove_one(
    cfg_inst: ConfigInstance,
    all_cfg_insts: &mut SingleThreadFileCache<ConfigInstance>,
    now: i64,
) -> (r: Applying)
    requires
        cfg_inst.wf(),
        cache_wf(old(all_cfg_insts)@),
        valid_timestamp(now as int),
        spec_next_action(cfg_inst, true, now as int) == NextAction::Remove,
    ensures
        ({
            let m = spec_replacements(old(all_cfg_insts)@, cfg_inst);
            &&& m.len() > 1 ==> (r matches Applying::Finished(res, Err(DeployErr::CrudErr(_)))
                && res.to_remove@.len() == 0 && res.to_deploy@.len() == 0)
            &&& m.len() == 0 ==> (r matches Applying::Rolling(ro) && ro@ == spec_enter(
                Stage::RemoveOld,
                seq![cfg_inst],
                Seq::empty(),
            ) && spec_rollout_wf(ro@))
            &&& m.len() == 1 && m[0].cooldown_ends_at <= now ==> (r matches Applying::Rolling(ro) && ro@
                == spec_enter(Stage::RemoveOld, seq![cfg_inst], seq![m[0]]) && spec_rollout_wf(ro@))
            &&& m.len() == 1 && m[0].cooldown_ends_at > now ==> {
                let waiting = ConfigInstance { cooldown_ends_at: m[0].cooldown_ends_at, ..cfg_inst };
                &&& r matches Applying::Finished(res, Ok(()))
                &&& res.to_remove@.len() == 0
                &&& res.to_deploy@ == seq![waiting]
                &&& spec_observed(old(all_cfg_insts)@, final(all_cfg_insts)@, waiting, now)
            }
            &&& !(m.len() == 1 && m[0].cooldown_ends_at > now) ==> final(all_cfg_insts)@ == old(
                all_cfg_insts,
            )@
        }),
{
    let next = next_action(&cfg_inst, true, now);
    if next != NextAction::Remove {
        return Applying::Finished(
            DeployResults::empty(),
            Err(DeployErr::InstanceNotDeployableErr(InstanceNotDeployableErr { instance: cfg_inst, next_action: next })),
        );
    }
    // find the replacements to deploy
    let replacement = match find_replacement(&cfg_inst, all_cfg_insts) {
        Ok(replacement) => replacement,
        Err(e) => return Applying::Finished(DeployResults::empty(), Err(e)),
    };
    let mut cfg_inst = cfg_inst;
    let mut replacements: Vec<ConfigInstance> = Vec::new();
    if let Some(replacement) = replacement {
        proof {
            lemma_replacements_wf(old(all_cfg_insts)@, cfg_inst);
        }
        // a replacement that is cooling down must finish first: this instance gets the
        // same cooldown so that both change places at the same time
        if replacement.is_in_cooldown(now) {
            let cooldown = replacement.cooldown(now);
            cfg_inst.set_cooldown(cooldown, now);
            let err_results = on_update(all_cfg_insts, &cfg_inst, now);
            let mut to_deploy: Vec<ConfigInstance> = Vec::new();
            to_deploy.push(cfg_inst);
            let deploy_results = DeployResults { to_remove: Vec::new(), to_deploy };
            return Applying::Finished(deploy_results, err_results);
        }
        replacements.push(replacement);
    }
    // remove the instance and deploy the replacement
    let mut to_remove: Vec<ConfigInstance> = Vec::new();
    to_remove.push(cfg_inst);
    Applying::Rolling(Rollout::new(to_remove, replacements))
}

/// The replacements found in a cache of valid instances are valid.
proof fn lemma_replacements_wf(s: Seq<CacheEntry<ConfigInstance>>, inst: ConfigInstance)
    requires
        cache_wf(s),
    ensures
        all_wf(spec_replacements(s, inst)),
{
    let d = replacement_flags(s, inst);
    crate::cache::table::lemma_select_from(s, d);
    let sel = select(s, d);
    assert forall|i: int| 0 <= i < values_of(sel).len() implies (#[trigger] values_of(sel)[i]).wf() by {
        let j = choose|j: int| 0 <= j < s.len() && d[j] && sel[i] == s[j];
        assert(s[j].value.wf());
    }
}

/// What taking up `cfg_inst` at `now` gives: nothing to do while it needs no action or
/// waits for its cooldown; otherwise the start of its deployment or removal.
pub fn apply_one(
    cfg_inst: ConfigInstance,
    all_cfg_insts: &mut SingleThreadFileCache<ConfigInstance>,
    now: i64,
) -> (r: Applying)
    requires
        cfg_inst.wf(),
        cache_wf(old(all_cfg_insts)@),
        valid_timestamp(now as int),
    ensures
        match spec_next_action(cfg_inst, true, now as int) {
            NextAction::Deploy => final(all_cfg_insts)@ == old(all_cfg_insts)@ && ({
                let cs = spec_conflicts(old(all_cfg_insts)@, cfg_inst);
                &&& (forall|i: int| 0 <= i < cs.len() ==> !wants_deployed(#[trigger] cs[i])) ==> (r matches Applying::Rolling(ro)
                    && ro@ == spec_enter(Stage::RemoveOld, cs, seq![cfg_inst]) && spec_rollout_wf(ro@))
                &&& (exists|i: int| 0 <= i < cs.len() && wants_deployed(#[trigger] cs[i])) ==> (r matches Applying::Finished(
                    res,
                    Err(DeployErr::ConflictingDeploymentsErr(_)),
                ) && res.to_remove@.len() == 0 && res.to_deploy@.len() == 0)
            }),
            NextAction::Remove => {
                let m = spec_replacements(old(all_cfg_insts)@, cfg_inst);
                &&& m.len() > 1 ==> (r matches Applying::Finished(res, Err(DeployErr::CrudErr(_)))
                    && res.to_remove@.len() == 0 && res.to_deploy@.len() == 0)
                &&& m.len() == 0 ==> (r matches Applying::Rolling(ro) && ro@ == spec_enter(
                    Stage::RemoveOld,
                    seq![cfg_inst],
                    Seq::empty(),
                ) && spec_rollout_wf(ro@))
                &&& m.len() == 1 && m[0].cooldown_ends_at <= now ==> (r matches Applying::Rolling(ro) && ro@
                    == spec_enter(Stage::RemoveOld, seq![cfg_inst], seq![m[0]]) && spec_rollout_wf(ro@))
                &&& m.len() == 1 && m[0].cooldown_ends_at > now ==> {
                    let waiting = ConfigInstance { cooldown_ends_at: m[0].cooldown_ends_at, ..cfg_inst };
                    &&& r matches Applying::Finished(res, Ok(()))
                    &&& res.to_remove@.len() == 0
                    &&& res.to_deploy@ == seq![waiting]
                    &&& spec_observed(old(all_cfg_insts)@, final(all_cfg_insts)@, waiting, now)
                }
                &&& !(m.len() == 1 && m[0].cooldown_ends_at > now) ==> final(all_cfg_insts)@ == old(
                    all_cfg_insts,
                )@
            },
            _ => {
                &&& r matches Applying::Finished(res, Ok(()))
                &&& res.to_remove@.len() == 0
                &&& res.to_deploy@.len() == 0
                &&& final(all_cfg_insts)@ == old(all_cfg_insts)@
            },
        },
{
    match next_action(&cfg_inst, true, now) {
        NextAction::NoAction => Applying::Finished(DeployResults::empty(), Ok(())),
        NextAction::Deploy => deploy_one(cfg_inst, all_cfg_insts, now),
        NextAction::Remove => remove_one(cfg_inst, all_cfg_insts, now),
        NextAction::Wait(_) => Applying::Finished(DeployResults::empty(), Ok(())),
    }
}

// ================================ THE APPLY LOOP ================================= //
/// The most instances one apply takes up.
pub const MAX_APPLY_ITERATIONS: u32 = 30u32;

/// The instances still to apply and the ones applied, after the instances `insts`
/// came back at `now` in turn: one that still needs an action goes (back) to the
/// instances to apply, any other leaves them and counts as applied.
pub open spec fn spec_absorb(
    to_apply: Map<Seq<char>, ConfigInstance>,
    applied: Map<Seq<char>, ConfigInstance>,
    insts: Seq<ConfigInstance>,
    now: int,
) -> (Map<Seq<char>, ConfigInstance>, Map<Seq<char>, ConfigInstance>)
    decreases insts.len(),
{
    if insts.len() == 0 {
        (to_apply, applied)
    } else {
        let (p, a) = spec_absorb(to_apply, applied, insts.drop_last(), now);
        let c = insts.last();
        if spec_is_action_required(spec_next_action(c, true, now)) {
            (p.insert(c.id@, c), a)
        } else {
            (p.remove(c.id@), a.insert(c.id@, c))
        }
    }
}

/// The instances of `insts` stored in turn under their identifiers.
pub open spec fn spec_collect(insts: Seq<ConfigInstance>) -> Map<Seq<char>, ConfigInstance>
    decreases insts.len(),
{
    if insts.len() == 0 {
        Map::empty()
    } else {
        spec_collect(insts.drop_last()).insert(insts.last().id@, insts.last())
    }
}

/// The bookkeeping of one apply: the instances still to apply, the ones applied, and
/// how many instances it has taken up.
#[derive(Debug)]
pub struct Applier {
    pub to_apply: Vec<ConfigInstance>,
    pub applied: Vec<ConfigInstance>,
    pub iterations: u32,
}

impl Applier {
    /// The bookkeeping is consistent: no identifier twice in either list, every
    /// instance to apply valid, and no more instances taken up than allowed.
    pub open spec fn wf(&self) -> bool {
        &&& ids_unique(self.to_apply@)
        &&& ids_unique(self.applied@)
        &&& all_wf(self.to_apply@)
        &&& self.iterations <= MAX_APPLY_ITERATIONS
    }

    /// An apply of the instances `cfg_insts_to_apply` (keyed by identifier: of two with
    /// one identifier, the later counts).
    pub fn new(cfg_insts_to_apply: Vec<ConfigInstance>) -> (r: Applier)
        requires
            all_wf(cfg_insts_to_apply@),
        ensures
            r.wf(),
            by_id(r.to_apply@) == spec_collect(cfg_insts_to_apply@),
            r.applied@.len() == 0,
            r.iterations == 0,
    {
        let mut to_apply: Vec<ConfigInstance> = Vec::new();
        let mut i: usize = 0;
        proof {
            assert(by_id(to_apply@) =~= Map::<Seq<char>, ConfigInstance>::empty());
        }
        while i < cfg_insts_to_apply.len()
            invariant
                0 <= i <= cfg_insts_to_apply@.len(),
                all_wf(cfg_insts_to_apply@),
                ids_unique(to_apply@),
                all_wf(to_apply@),
                by_id(to_apply@) == spec_collect(cfg_insts_to_apply@.take(i as int)),
            decreases cfg_insts_to_apply@.len() - i,
        {
            let ghost before = to_apply@;
            insert_by_id(&mut to_apply, cfg_insts_to_apply[i].duplicate());
            proof {
                let t = cfg_insts_to_apply@.take(i + 1);
                assert(t.drop_last() =~= cfg_insts_to_apply@.take(i as int));
                assert(t.last() == cfg_insts_to_apply@[i as int]);
                lemma_put_keeps_wf(before, cfg_insts_to_apply@[i as int]);
            }
            i = i + 1;
        }
        proof {
            assert(cfg_insts_to_apply@.take(cfg_insts_to_apply@.len() as int) =~= cfg_insts_to_apply@);
        }
        Applier { to_apply, applied: Vec::new(), iterations: 0 }
    }

    /// The next instance to take up: none once there are no instances left to apply or
    /// the apply has taken up its maximum.
    pub fn next_instance(&mut self) -> (r: Option<ConfigInstance>)
        requires
            old(self).wf(),
        ensures
            final(self).wf(),
            old(self).to_apply@.len() == 0 || old(self).iterations >= MAX_APPLY_ITERATIONS ==> r is None
                && *final(self) == *old(self),
            old(self).to_apply@.len() > 0 && old(self).iterations < MAX_APPLY_ITERATIONS ==> {
                &&& r == Some(old(self).to_apply@[0])
                &&& final(self).to_apply@ == old(self).to_apply@.remove(0)
                &&& by_id(final(self).to_apply@) == by_id(old(self).to_apply@).remove(old(self).to_apply@[0].id@)
                &&& final(self).applied == old(self).applied
                &&& final(self).iterations == old(self).iterations + 1
            },
    {
        if self.to_apply.len() == 0 {
            return None;
        }
        if self.iterations >= MAX_APPLY_ITERATIONS {
            // the maximum number of iterations is reached
            return None;
        }
        self.iterations = self.iterations + 1;
        let ghost before = self.to_apply@;
        let first = self.to_apply.remove(0);
        proof {
            crate::deploy::keyed::lemma_id_index_unique(before, 0);
            crate::deploy::keyed::lemma_remove_id(before, before[0].id@);
            assert(crate::deploy::keyed::spec_remove_id(before, before[0].id@) == before.remove(0));
        }
        Some(first)
    }

    /// Takes back the instances that came out of taking up one instance at `now`: the
    /// ones that were to be removed, then the ones that were to be deployed.
    pub fn absorb(&mut self, results: DeployResults, now: i64)
        requires
            old(self).wf(),
            all_wf(results.to_remove@),
            all_wf(results.to_deploy@),
            valid_timestamp(now as int),
        ensures
            final(self).wf(),
            final(self).iterations == old(self).iterations,
            (by_id(final(self).to_apply@), by_id(final(self).applied@)) == spec_absorb(
                by_id(old(self).to_apply@),
                by_id(old(self).applied@),
                results.to_remove@ + results.to_deploy@,
                now as int,
            ),
    {
        let DeployResults { to_remove, to_deploy } = results;
        let ghost insts = to_remove@ + to_deploy@;
        let ghost start = (by_id(self.to_apply@), by_id(self.applied@));
        let mut all: Vec<ConfigInstance> = to_remove;
        let mut rest = to_deploy;
        all.append(&mut rest);
        proof {
            assert(all@ =~= insts);
        }
        let mut i: usize = 0;
        while i < all.len()
            invariant
                0 <= i <= all@.len(),
                all@ == insts,
                all_wf(all@),
                valid_timestamp(now as int),
                self.wf(),
                self.iterations == old(self).iterations,
                start == (by_id(old(self).to_apply@), by_id(old(self).applied@)),
                (by_id(self.to_apply@), by_id(self.applied@)) == spec_absorb(
                    start.0,
                    start.1,
                    insts.take(i as int),
                    now as int,
                ),
            decreases all@.len() - i,
        {
            let instance = all[i].duplicate();
            proof {
                let t = insts.take(i + 1);
                assert(t.drop_last() =~= insts.take(i as int));
                assert(t.last() == insts[i as int]);
            }
            if is_action_required(next_action(&instance, true, now)) {
                let ghost before = self.to_apply@;
                insert_by_id(&mut self.to_apply, instance);
                proof {
                    lemma_put_keeps_wf(before, insts[i as int]);
                }
            } else {
                let ghost before = self.to_apply@;
                remove_by_id(&mut self.to_apply, instance.id.as_str());
                proof {
                    lemma_remove_keeps_wf(before, instance.id@);
                }
                insert_by_id(&mut self.applied, instance);
            }
            i = i + 1;
        }
        proof {
            assert(insts.take(insts.len() as int) =~= insts);
        }
    }

    /// The instances applied, keyed by identifier.
    pub fn finish(self) -> (r: Vec<ConfigInstance>)
        requires
            self.wf(),
        ensures
            r@ == self.applied@,
            ids_unique(r@),
    {
        self.applied
    }
}

proof fn lemma_put_keeps_wf(s: Seq<ConfigInstance>, inst: ConfigInstance)
    requires
        all_wf(s),
        inst.wf(),
    ensures
        all_wf(crate::deploy::keyed::spec_put_id(s, inst)),
{
    let t = crate::deploy::keyed::spec_put_id(s, inst);
    assert forall|i: int| 0 <= i < t.len() implies (#[trigger] t[i]).wf() by {
        if i < s.len() && t[i] != inst {
            assert(t[i] == s[i]);
        }
    }
}

proof fn lemma_remove_keeps_wf(s: Seq<ConfigInstance>, id: Seq<char>)
    requires
        all_wf(s),
    ensures
        all_wf(crate::deploy::keyed::spec_remove_id(s, id)),
{
    let t = crate::deploy::keyed::spec_remove_id(s, id);
    if crate::deploy::keyed::has_id(s, id) {
        let idx = crate::deploy::keyed::id_index(s, id);
        assert forall|i: int| 0 <= i < t.len() implies (#[trigger] t[i]).wf() by {
            if i < idx {
                assert(t[i] == s[i]);
            } else {
                assert(t[i] == s[i + 1]);
            }
        }
    }
}

/// Every instance of the map sits under its own identifier.
pub open spec fn keyed_by_own_id(m: Map<Seq<char>, ConfigInstance>) -> bool {
    forall|k: Seq<char>| #[trigger] m.dom().contains(k) ==> m[k].id@ == k
}

/// The map of a list of instances has each under its own identifier (so the maps of
/// an `Applier` meet the requirements of `lemma_absorb_records_applied`).
pub proof fn lemma_by_id_keyed_by_own_id(s: Seq<ConfigInstance>)
    ensures
        keyed_by_own_id(by_id(s)),
{
    assert forall|k: Seq<char>| #[trigger] by_id(s).dom().contains(k) implies by_id(s)[k].id@ == k by {
        let i = crate::deploy::keyed::id_index(s, k);
        assert(0 <= i < s.len() && s[i].id@ == k);
    }
}

/// Taking back instances at `now` keeps both maps keyed by the instances' own
/// identifiers. Every instance recorded as applied was applied before or came back in
/// `insts` needing no action at `now`; every instance left to apply was to be applied
/// before or came back in `insts` still needing an action.
pub proof fn lemma_absorb_records_applied(
    to_apply: Map<Seq<char>, ConfigInstance>,
    applied: Map<Seq<char>, ConfigInstance>,
    insts: Seq<ConfigInstance>,
    now: int,
)
    requires
        keyed_by_own_id(to_apply),
        keyed_by_own_id(applied),
    ensures
        ({
            let (p, a) = spec_absorb(to_apply, applied, insts, now);
            &&& keyed_by_own_id(p)
            &&& keyed_by_own_id(a)
            &&& forall|k: Seq<char>| #[trigger] a.dom().contains(k) ==> (applied.dom().contains(k) && a[k] == applied[k])
                || (insts.contains(a[k]) && !spec_is_action_required(spec_next_action(a[k], true, now)))
            &&& forall|k: Seq<char>| #[trigger] p.dom().contains(k) ==> (to_apply.dom().contains(k) && p[k] == to_apply[k])
                || (insts.contains(p[k]) && spec_is_action_required(spec_next_action(p[k], true, now)))
        }),
    decreases insts.len(),
{
    if insts.len() > 0 {
        let init = insts.drop_last();
        lemma_absorb_records_applied(to_apply, applied, init, now);
        let (p0, a0) = spec_absorb(to_apply, applied, init, now);
        let c = insts.last();
        assert(insts[insts.len() - 1] == c);
        assert forall|x: ConfigInstance| init.contains(x) implies insts.contains(x) by {
            let j = choose|j: int| 0 <= j < init.len() && init[j] == x;
            assert(insts[j] == x);
        }
        let (p, a) = spec_absorb(to_apply, applied, insts, now);
        if spec_is_action_required(spec_next_action(c, true, now)) {
            assert(p == p0.insert(c.id@, c) && a == a0);
        } else {
            assert(p == p0.remove(c.id@) && a == a0.insert(c.id@, c));
        }
    }
}

/// The last instance of `insts` with the identifier `k`, if any.
pub open spec fn last_with_id(insts: Seq<ConfigInstance>, k: Seq<char>) -> Option<ConfigInstance>
    decreases insts.len(),
{
    if insts.len() == 0 {
        None
    } else if insts.last().id@ == k {
        Some(insts.last())
    } else {
        last_with_id(insts.drop_last(), k)
    }
}

/// Taking back instances at `now` settles each identifier by the last instance that
/// came back with it: one that needs no action at `now` leaves the instances to apply
/// and is recorded as applied; one that still needs an action is (again) to be applied,
/// as it came back. An identifier that did not come back keeps its place in both.
pub proof fn lemma_absorb_settles_by_last(
    to_apply: Map<Seq<char>, ConfigInstance>,
    applied: Map<Seq<char>, ConfigInstance>,
    insts: Seq<ConfigInstance>,
    now: int,
    k: Seq<char>,
)
    ensures
        ({
            let (p, a) = spec_absorb(to_apply, applied, insts, now);
            match last_with_id(insts, k) {
                Some(c) => if spec_is_action_required(spec_next_action(c, true, now)) {
                    p.dom().contains(k) && p[k] == c
                } else {
                    !p.dom().contains(k) && a.dom().contains(k) && a[k] == c
                },
                None => (p.dom().contains(k) == to_apply.dom().contains(k)) && (to_apply.dom().contains(k)
                    ==> p[k] == to_apply[k]) && (a.dom().contains(k) == applied.dom().contains(k)) && (
                applied.dom().contains(k) ==> a[k] == applied[k]),
            }
        }),
    decreases insts.len(),
{
    if insts.len() > 0 {
        lemma_absorb_settles_by_last(to_apply, applied, insts.drop_last(), now, k);
    }
}

/// Writing an instance never hides a change from the backend: a new entry is dirty,
/// an entry that was dirty stays dirty, and one whose activity or error status changes
/// becomes dirty. Only a clean entry whose statuses stay as they were stays clean.
pub proof fn lemma_dirtiness_keeps_pending_changes(old: Option<CacheEntry<ConfigInstance>>, new: ConfigInstance)
    ensures
        old is None ==> spec_is_dirty(old, new),
        old matches Some(o) && o.is_dirty ==> spec_is_dirty(old, new),
        old matches Some(o) && (o.value.activity_status != new.activity_status || o.value.error_status
            != new.error_status) ==> spec_is_dirty(old, new),
        old matches Some(o) && !o.is_dirty && o.value.activity_status == new.activity_status
            && o.value.error_status == new.error_status ==> !spec_is_dirty(old, new),
{
}

} // verus!
