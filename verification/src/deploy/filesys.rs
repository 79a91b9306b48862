//! Deploying and removing config instances in the deployment directory, with
//! rollback. The caller does the file work, one operation at a time, and hands back
//! how it went; the rollout decides what each instance becomes and what comes next.

use vstd::prelude::*;
use crate::cache::file::SingleThreadFileCache;
use crate::deploy::apply::{on_update, spec_observed};
use crate::deploy::errors::DeployErr;
use crate::deploy::fsm::{self, fail_in_range, spec_fail, spec_fail_in_range, spec_succeed, Settings};
use crate::errors::MiruError;
use crate::models::config_instance::{ActivityStatus, ConfigInstance, TargetStatus};

verus! {

/// What the deployed and removed instances became.
#[derive(Debug)]
pub struct DeployResults {
    pub to_remove: Vec<ConfigInstance>,
    pub to_deploy: Vec<ConfigInstance>,
}

impl DeployResults {
    pub fn empty() -> (r: Self)
        ensures
            r.to_remove@.len() == 0,
            r.to_deploy@.len() == 0,
    {
        DeployResults { to_remove: Vec::new(), to_deploy: Vec::new() }
    }
}

// ================================ ONE INSTANCE =================================== //
/// The file work that deploying or removing one instance takes.
#[derive(Debug)]
pub enum FileOp {
    /// Nothing: the instance has no file.
    Nothing,
    /// Write the content of the instance `id` to `relative_filepath` in the deployment
    /// directory.
    Write { id: String, relative_filepath: String },
    /// Delete `relative_filepath` from the deployment directory.
    Delete { relative_filepath: String },
}

pub open spec fn spec_file_op(inst: ConfigInstance, deploying: bool) -> FileOp {
    match inst.relative_filepath {
        None => FileOp::Nothing,
        Some(p) => if deploying {
            FileOp::Write { id: inst.id, relative_filepath: p }
        } else {
            FileOp::Delete { relative_filepath: p }
        },
    }
}

/// The file work for deploying (or removing) `inst`.
pub fn file_op(inst: &ConfigInstance, deploying: bool) -> (r: FileOp)
    ensures
        r == spec_file_op(*inst, deploying),
{
    match &inst.relative_filepath {
        None => FileOp::Nothing,
        Some(p) => if deploying {
            FileOp::Write { id: inst.id.clone(), relative_filepath: p.clone() }
        } else {
            FileOp::Delete { relative_filepath: p.clone() }
        },
    }
}

/// The work for `inst` succeeded: it had no file, or its file operation succeeded.
pub open spec fn spec_op_succeeded(inst: ConfigInstance, outcome: Result<(), DeployErr>) -> bool {
    inst.relative_filepath is None || outcome is Ok
}

/// A failure counts against the attempts when the instance wanted what was tried and
/// the error is not a lost network connection.
pub open spec fn spec_failure_counts(inst: ConfigInstance, deploying: bool, outcome: Result<(), DeployErr>) -> bool {
    &&& if deploying {
        inst.target_status == TargetStatus::Deployed
    } else {
        inst.target_status == TargetStatus::Removed
    }
    &&& match outcome {
        Ok(_) => true,
        Err(e) => !e.spec_is_network_connection_error(),
    }
}

/// The instance after the work for deploying (or removing) it ended with `outcome` at
/// the instant `now`.
pub open spec fn spec_after_op(
    inst: ConfigInstance,
    deploying: bool,
    outcome: Result<(), DeployErr>,
    settings: Settings,
    now: int,
) -> ConfigInstance {
    if spec_op_succeeded(inst, outcome) {
        spec_succeed(inst, if deploying { ActivityStatus::Deployed } else { ActivityStatus::Removed })
    } else {
        spec_fail(inst, settings, spec_failure_counts(inst, deploying, outcome), now)
    }
}

/// A failure of the work can be recorded at `now` (its cooldown is representable).
pub open spec fn spec_op_recordable(
    inst: ConfigInstance,
    deploying: bool,
    outcome: Result<(), DeployErr>,
    settings: Settings,
    now: int,
) -> bool {
    !spec_op_succeeded(inst, outcome) ==> spec_fail_in_range(
        inst,
        settings,
        spec_failure_counts(inst, deploying, outcome),
        now,
    )
}

/// The instance after the work for deploying (or removing) it ended with `outcome` at
/// `now`: on success it has reached its new activity status; on failure the error is
/// recorded against it.
pub fn after_op(
    inst: ConfigInstance,
    deploying: bool,
    outcome: &Result<(), DeployErr>,
    settings: &Settings,
    now: i64,
) -> (r: ConfigInstance)
    requires
        spec_op_recordable(inst, deploying, *outcome, *settings, now as int),
    ensures
        r == spec_after_op(inst, deploying, *outcome, *settings, now as int),
{
    let succeeded = inst.relative_filepath.is_none() || outcome.is_ok();
    if succeeded {
        if deploying {
            fsm::deploy(inst)
        } else {
            fsm::remove(inst)
        }
    } else {
        match outcome {
            Ok(_) => inst,
            Err(e) => {
                let increment_attempts = if deploying {
                    inst.target_status == TargetStatus::Deployed
                } else {
                    inst.target_status == TargetStatus::Removed
                };
                fsm::error(inst, settings, e, increment_attempts, now)
            },
        }
    }
}

// ================================== ROLLOUT ====================================== //
/// The stages of a rollout: remove the old instances, deploy the new ones; when a
/// deployment fails, remove the new ones again and deploy the old ones back.
#[derive(Debug, Clone, Copy, PartialEq, Eq, Structural)]
pub enum Stage {
    RemoveOld,
    DeployNew,
    UndoNew,
    RestoreOld,
    Done,
}

/// How many stages at most come after this one.
pub open spec fn stage_rank(stage: Stage) -> nat {
    match stage {
        Stage::RemoveOld => 4,
        Stage::DeployNew => 3,
        Stage::UndoNew => 2,
        Stage::RestoreOld => 1,
        Stage::Done => 0,
    }
}

/// The stage writes its instances to the device (rather than deleting them).
pub open spec fn stage_deploys(stage: Stage) -> bool {
    stage is DeployNew || stage is RestoreOld
}

/// The stage works on the old instances (rather than the new ones).
pub open spec fn stage_handles_old(stage: Stage) -> bool {
    stage is RemoveOld || stage is RestoreOld
}

/// The model of a rollout: its stage, the instances of that stage (`batch`), how many of
/// them are done and what they became, and the old and new instances as they stood
/// when the stage began.
pub ghost struct RolloutState {
    pub stage: Stage,
    pub batch: Seq<ConfigInstance>,
    pub next: int,
    pub processed: Seq<ConfigInstance>,
    pub old: Seq<ConfigInstance>,
    pub new: Seq<ConfigInstance>,
}

/// The rollout as it begins `stage` with the old and new instances `old` and `new`; a
/// stage with no instances ends at once, successfully.
pub open spec fn spec_enter(stage: Stage, old: Seq<ConfigInstance>, new: Seq<ConfigInstance>) -> RolloutState
    decreases stage_rank(stage), 1nat,
{
    let batch = if stage_handles_old(stage) {
        old
    } else {
        new
    };
    if stage is Done {
        RolloutState { stage: Stage::Done, batch: Seq::empty(), next: 0, processed: Seq::empty(), old, new }
    } else if batch.len() == 0 {
        spec_complete(stage, old, new, Seq::empty(), true)
    } else {
        RolloutState { stage, batch, next: 0, processed: Seq::empty(), old, new }
    }
}

/// The rollout once `stage` has ended, its instances having become `results`;
/// `succeeded` says whether every one of them succeeded.
pub open spec fn spec_complete(
    stage: Stage,
    old: Seq<ConfigInstance>,
    new: Seq<ConfigInstance>,
    results: Seq<ConfigInstance>,
    succeeded: bool,
) -> RolloutState
    decreases stage_rank(stage), 0nat,
{
    match stage {
        Stage::RemoveOld => spec_enter(Stage::DeployNew, results, new),
        Stage::DeployNew => if succeeded {
            spec_enter(Stage::Done, old, results)
        } else {
            spec_enter(Stage::UndoNew, old, results)
        },
        Stage::UndoNew => spec_enter(Stage::RestoreOld, old, results),
        Stage::RestoreOld => spec_enter(Stage::Done, results, new),
        Stage::Done => RolloutState { stage: Stage::Done, batch: Seq::empty(), next: 0, processed: Seq::empty(), old, new },
    }
}

/// The rollout after the work for its next instance ended with `outcome` at `now`. A
/// failure ends the stage: the instances after the failed one are handed back
/// untouched.
pub open spec fn spec_step(s: RolloutState, outcome: Result<(), DeployErr>, settings: Settings, now: int) -> RolloutState {
    let inst = s.batch[s.next];
    let after = spec_after_op(inst, stage_deploys(s.stage), outcome, settings, now);
    let processed = s.processed.push(after);
    if !spec_op_succeeded(inst, outcome) {
        spec_complete(s.stage, s.old, s.new, processed + s.batch.skip(s.next + 1), false)
    } else if s.next + 1 == s.batch.len() {
        spec_complete(s.stage, s.old, s.new, processed, true)
    } else {
        RolloutState { next: s.next + 1, processed, ..s }
    }
}

/// The model is one a rollout can be in.
pub open spec fn spec_rollout_wf(s: RolloutState) -> bool {
    &&& s.stage is Done ==> s.next == 0 && s.batch.len() == 0
    &&& s.stage !is Done ==> 0 <= s.next < s.batch.len()
    &&& s.processed.len() == s.next
    &&& s.stage !is Done ==> s.batch == (if stage_handles_old(s.stage) {
        s.old
    } else {
        s.new
    })
}

/// A rollout of the instances `to_remove` out and `to_deploy` in.
#[derive(Debug)]
pub struct Rollout {
    pub stage: Stage,
    pub batch: Vec<ConfigInstance>,
    pub next: usize,
    pub processed: Vec<ConfigInstance>,
    pub old: Vec<ConfigInstance>,
    pub new: Vec<ConfigInstance>,
}

impl View for Rollout {
    type V = RolloutState;

    open spec fn view(&self) -> RolloutState {
        RolloutState {
            stage: self.stage,
            batch: self.batch@,
            next: self.next as int,
            processed: self.processed@,
            old: self.old@,
            new: self.new@,
        }
    }
}

/// Copies of the instances, equal to them.
pub fn duplicate_instances(v: &Vec<ConfigInstance>) -> (r: Vec<ConfigInstance>)
    ensures
        r@ == v@,
{
    let mut r: Vec<ConfigInstance> = Vec::new();
    let mut i: usize = 0;
    while i < v.len()
        invariant
            0 <= i <= v@.len(),
            r@ == v@.take(i as int),
        decreases v@.len() - i,
    {
        r.push(v[i].duplicate());
        proof {
            assert(v@.take(i + 1) =~= v@.take(i as int).push(v@[i as int]));
        }
        i = i + 1;
    }
    proof {
        assert(v@.take(v@.len() as int) =~= v@);
    }
    r
}

proof fn lemma_enter_wf(stage: Stage, old: Seq<ConfigInstance>, new: Seq<ConfigInstance>)
    ensures
        spec_rollout_wf(spec_enter(stage, old, new)),
    decreases stage_rank(stage), 1nat,
{
    let batch = if stage_handles_old(stage) {
        old
    } else {
        new
    };
    if stage !is Done && batch.len() == 0 {
        lemma_complete_wf(stage, old, new, Seq::empty(), true);
    }
}

proof fn lemma_complete_wf(
    stage: Stage,
    old: Seq<ConfigInstance>,
    new: Seq<ConfigInstance>,
    results: Seq<ConfigInstance>,
    succeeded: bool,
)
    ensures
        spec_rollout_wf(spec_complete(stage, old, new, results, succeeded)),
    decreases stage_rank(stage), 0nat,
{
    match stage {
        Stage::RemoveOld => lemma_enter_wf(Stage::DeployNew, results, new),
        Stage::DeployNew => if succeeded {
            lemma_enter_wf(Stage::Done, old, results)
        } else {
            lemma_enter_wf(Stage::UndoNew, old, results)
        },
        Stage::UndoNew => lemma_enter_wf(Stage::RestoreOld, old, results),
        Stage::RestoreOld => lemma_enter_wf(Stage::Done, results, new),
        Stage::Done => {},
    }
}

impl Rollout {
    /// The rollout as it begins `stage`.
    fn enter(stage: Stage, old: Vec<ConfigInstance>, new: Vec<ConfigInstance>) -> (r: Rollout)
        ensures
            r@ == spec_enter(stage, old@, new@),
        decreases stage_rank(stage), 1nat,
    {
        if stage == Stage::Done {
            return Rollout { stage: Stage::Done, batch: Vec::new(), next: 0, processed: Vec::new(), old, new };
        }
        let batch = if stage == Stage::RemoveOld || stage == Stage::RestoreOld {
            duplicate_instances(&old)
        } else {
            duplicate_instances(&new)
        };
        if batch.len() == 0 {
            Rollout::complete(stage, old, new, Vec::new(), true)
        } else {
            Rollout { stage, batch, next: 0, processed: Vec::new(), old, new }
        }
    }

    /// The rollout once `stage` has ended with its instances become `results`.
    fn complete(
        stage: Stage,
        old: Vec<ConfigInstance>,
        new: Vec<ConfigInstance>,
        results: Vec<ConfigInstance>,
        succeeded: bool,
    ) -> (r: Rollout)
        ensures
            r@ == spec_complete(stage, old@, new@, results@, succeeded),
        decreases stage_rank(stage), 0nat,
    {
        match stage {
            Stage::RemoveOld => Rollout::enter(Stage::DeployNew, results, new),
            Stage::DeployNew => if succeeded {
                Rollout::enter(Stage::Done, old, results)
            } else {
                Rollout::enter(Stage::UndoNew, old, results)
            },
            Stage::UndoNew => Rollout::enter(Stage::RestoreOld, old, results),
            Stage::RestoreOld => Rollout::enter(Stage::Done, results, new),
            Stage::Done => Rollout { stage: Stage::Done, batch: Vec::new(), next: 0, processed: Vec::new(), old, new },
        }
    }

    /// A rollout that removes `to_remove` and deploys `to_deploy`, in that order.
    pub fn new(to_remove: Vec<ConfigInstance>, to_deploy: Vec<ConfigInstance>) -> (r: Rollout)
        ensures
            r@ == spec_enter(Stage::RemoveOld, to_remove@, to_deploy@),
            spec_rollout_wf(r@),
    {
        proof {
            lemma_enter_wf(Stage::RemoveOld, to_remove@, to_deploy@);
        }
        Rollout::enter(Stage::RemoveOld, to_remove, to_deploy)
    }

    /// Whether the rollout has ended.
    pub fn is_done(&self) -> (r: bool)
        ensures
            r == (self@.stage is Done),
    {
        self.stage == Stage::Done
    }

    /// The file work the rollout waits for, if it has not ended.
    pub fn pending_op(&self) -> (r: Option<FileOp>)
        requires
            spec_rollout_wf(self@),
        ensures
            self@.stage is Done ==> r is None,
            self@.stage !is Done ==> r == Some(spec_file_op(self@.batch[self@.next], stage_deploys(self@.stage))),
    {
        if self.stage == Stage::Done {
            return None;
        }
        let deploying = self.stage == Stage::DeployNew || self.stage == Stage::RestoreOld;
        Some(file_op(&self.batch[self.next], deploying))
    }

    /// Whether `advance` can take in `outcome` at `now`: a failure must start a cooldown
    /// that can be represented.
    pub fn can_advance(&self, outcome: &Result<(), DeployErr>, settings: &Settings, now: i64) -> (r: bool)
        requires
            spec_rollout_wf(self@),
            self@.stage !is Done,
        ensures
            r == spec_op_recordable(self@.batch[self@.next], stage_deploys(self@.stage), *outcome, *settings, now as int),
    {
        let inst = &self.batch[self.next];
        if inst.relative_filepath.is_none() {
            return true;
        }
        match outcome {
            Ok(_) => true,
            Err(e) => {
                let deploying = self.stage == Stage::DeployNew || self.stage == Stage::RestoreOld;
                let wanted = if deploying {
                    inst.target_status == TargetStatus::Deployed
                } else {
                    inst.target_status == TargetStatus::Removed
                };
                let counts = wanted && !e.is_network_connection_error();
                fail_in_range(inst, settings, counts, now)
            },
        }
    }

    /// Takes in how the pending file work went, at the instant `now`: the instance is
    /// brought to its new state, which the storage observer records in the cache of
    /// config instances, and the rollout moves on.
    pub fn advance(
        self,
        outcome: Result<(), DeployErr>,
        cfg_inst_cache: &mut SingleThreadFileCache<ConfigInstance>,
        settings: &Settings,
        now: i64,
    ) -> (r: Rollout)
        requires
            spec_rollout_wf(self@),
            self@.stage !is Done,
            spec_op_recordable(self@.batch[self@.next], stage_deploys(self@.stage), outcome, *settings, now as int),
        ensures
            r@ == spec_step(self@, outcome, *settings, now as int),
            spec_rollout_wf(r@),
            spec_observed(
                old(cfg_inst_cache)@,
                final(cfg_inst_cache)@,
                spec_after_op(self@.batch[self@.next], stage_deploys(self@.stage), outcome, *settings, now as int),
                now,
            ),
    {
        let ghost s = self@;
        let Rollout { stage, batch, next, processed, old, new } = self;
        let len = batch.len();
        let deploying = stage == Stage::DeployNew || stage == Stage::RestoreOld;
        let inst = batch[next].duplicate();
        let succeeded = inst.relative_filepath.is_none() || outcome.is_ok();
        let after = after_op(inst, deploying, &outcome, settings, now);
        let _ = on_update(cfg_inst_cache, &after, now);
        let mut processed = processed;
        processed.push(after);
        let ghost after_spec = spec_after_op(s.batch[s.next], deploying, outcome, *settings, now as int);
        if !succeeded {
            // hand back the rest untouched
            let mut results = processed;
            let mut i: usize = next + 1;
            while i < len
                invariant
                    len == batch@.len(),
                    next + 1 <= i <= len,
                    results@ == s.processed.push(after_spec) + batch@.subrange(next + 1, i as int),
                decreases len - i,
            {
                results.push(batch[i].duplicate());
                proof {
                    let p = s.processed.push(after_spec);
                    assert(p + batch@.subrange(next + 1, i + 1) =~= (p + batch@.subrange(next + 1, i as int)).push(
                        batch@[i as int],
                    ));
                }
                i = i + 1;
            }
            proof {
                assert(batch@.subrange(next + 1, batch@.len() as int) =~= batch@.skip(next + 1));
                lemma_complete_wf(stage, old@, new@, results@, false);
            }
            Rollout::complete(stage, old, new, results, false)
        } else if next + 1 == len {
            proof {
                lemma_complete_wf(stage, old@, new@, processed@, true);
            }
            Rollout::complete(stage, old, new, processed, true)
        } else {
            Rollout { stage, batch, next: next + 1, processed, old, new }
        }
    }

    /// What the instances became, once the rollout has ended: the old instances and the
    /// new ones, each in their original order.
    pub fn finish(self) -> (r: DeployResults)
        requires
            self@.stage is Done,
        ensures
            r.to_remove@ == self@.old,
            r.to_deploy@ == self@.new,
    {
        DeployResults { to_remove: self.old, to_deploy: self.new }
    }
}

// =================================== LAWS ======================================== //
/// The identifiers of the instances, in order.
pub open spec fn instance_ids(s: Seq<ConfigInstance>) -> Seq<Seq<char>> {
    s.map_values(|c: ConfigInstance| c.id@)
}

/// The old instances as the rollout stands: while a stage works on them, the ones done
/// followed by the ones still waiting.
pub open spec fn old_picture(s: RolloutState) -> Seq<ConfigInstance> {
    if s.stage !is Done && stage_handles_old(s.stage) {
        s.processed + s.batch.skip(s.next)
    } else {
        s.old
    }
}

/// The new instances as the rollout stands.
pub open spec fn new_picture(s: RolloutState) -> Seq<ConfigInstance> {
    if s.stage !is Done && !stage_handles_old(s.stage) {
        s.processed + s.batch.skip(s.next)
    } else {
        s.new
    }
}

/// A rollout begins with the instances it was given.
pub proof fn lemma_enter_pictures(stage: Stage, old: Seq<ConfigInstance>, new: Seq<ConfigInstance>)
    ensures
        old_picture(spec_enter(stage, old, new)) == old,
        new_picture(spec_enter(stage, old, new)) == new,
    decreases stage_rank(stage), 1nat,
{
    let batch = if stage_handles_old(stage) {
        old
    } else {
        new
    };
    if stage !is Done {
        if batch.len() == 0 {
            lemma_complete_pictures(stage, old, new, Seq::empty(), true);
            assert(batch =~= Seq::<ConfigInstance>::empty());
        } else {
            assert(Seq::<ConfigInstance>::empty() + batch.skip(0) =~= batch);
        }
    }
}

/// A stage that ends hands its results over as the instances it worked on.
pub proof fn lemma_complete_pictures(
    stage: Stage,
    old: Seq<ConfigInstance>,
    new: Seq<ConfigInstance>,
    results: Seq<ConfigInstance>,
    succeeded: bool,
)
    requires
        stage !is Done,
    ensures
        old_picture(spec_complete(stage, old, new, results, succeeded)) == (if stage_handles_old(stage) {
            results
        } else {
            old
        }),
        new_picture(spec_complete(stage, old, new, results, succeeded)) == (if stage_handles_old(stage) {
            new
        } else {
            results
        }),
    decreases stage_rank(stage), 0nat,
{
    match stage {
        Stage::RemoveOld => lemma_enter_pictures(Stage::DeployNew, results, new),
        Stage::DeployNew => if succeeded {
            lemma_enter_pictures(Stage::Done, old, results)
        } else {
            lemma_enter_pictures(Stage::UndoNew, old, results)
        },
        Stage::UndoNew => lemma_enter_pictures(Stage::RestoreOld, old, results),
        Stage::RestoreOld => lemma_enter_pictures(Stage::Done, results, new),
        Stage::Done => {},
    }
}

/// Every step of a rollout hands every instance back, in its place: the old and the new
/// instances keep their identifiers and their order, whatever the file system answers.
/// (A rollout begins with the instances it is given, by `lemma_enter_pictures`, and
/// `Rollout::finish` returns the two pictures of the ended rollout.)
pub proof fn lemma_step_keeps_instances(
    s: RolloutState,
    outcome: Result<(), DeployErr>,
    settings: Settings,
    now: int,
)
    requires
        spec_rollout_wf(s),
        s.stage !is Done,
    ensures
        instance_ids(old_picture(spec_step(s, outcome, settings, now))) == instance_ids(old_picture(s)),
        instance_ids(new_picture(spec_step(s, outcome, settings, now))) == instance_ids(new_picture(s)),
{
    let inst = s.batch[s.next];
    let after = spec_after_op(inst, stage_deploys(s.stage), outcome, settings, now);
    let processed = s.processed.push(after);
    let before = s.processed + s.batch.skip(s.next);
    let rest = processed + s.batch.skip(s.next + 1);
    assert(after.id == inst.id);
    assert(instance_ids(rest) =~= instance_ids(before)) by {
        assert forall|i: int| 0 <= i < rest.len() implies #[trigger] rest[i].id@ == before[i].id@ by {
            if i < s.next {
            } else if i == s.next {
            } else {
                assert(rest[i] == s.batch[i]);
                assert(before[i] == s.batch[i]);
            }
        }
    }
    if !spec_op_succeeded(inst, outcome) {
        lemma_complete_pictures(s.stage, s.old, s.new, rest, false);
    } else if s.next + 1 == s.batch.len() {
        assert(rest =~= processed);
        lemma_complete_pictures(s.stage, s.old, s.new, processed, true);
    } else {
        assert(rest =~= spec_step(s, outcome, settings, now).processed + s.batch.skip(s.next + 1));
    }
}

/// The new instances are rolled back exactly when deploying one of them fails: a step
/// of the deploy stage that succeeds never starts the rollback, and one that fails
/// starts it with the instance that failed.
pub proof fn lemma_rollback_iff_deploy_fails(
    s: RolloutState,
    outcome: Result<(), DeployErr>,
    settings: Settings,
    now: int,
)
    requires
        spec_rollout_wf(s),
        s.stage is DeployNew,
    ensures
        spec_op_succeeded(s.batch[s.next], outcome) ==> (spec_step(s, outcome, settings, now).stage is DeployNew
            || spec_step(s, outcome, settings, now).stage is Done),
        !spec_op_succeeded(s.batch[s.next], outcome) ==> spec_step(s, outcome, settings, now).stage is UndoNew,
{
    let inst = s.batch[s.next];
    let after = spec_after_op(inst, stage_deploys(s.stage), outcome, settings, now);
    let processed = s.processed.push(after);
    let rest = processed + s.batch.skip(s.next + 1);
    assert(rest.len() > 0);
}

/// The rollout after it has taken in `steps`, one outcome of file work and the instant
/// it came at per step, in order; once it has ended it takes in nothing more.
pub open spec fn spec_run(s: RolloutState, steps: Seq<(Result<(), DeployErr>, int)>, settings: Settings) -> RolloutState
    decreases steps.len(),
{
    if steps.len() == 0 || s.stage is Done {
        s
    } else {
        spec_run(spec_step(s, steps[0].0, settings, steps[0].1), steps.drop_first(), settings)
    }
}

/// A step keeps a rollout in a state it can be in.
proof fn lemma_step_wf(s: RolloutState, outcome: Result<(), DeployErr>, settings: Settings, now: int)
    requires
        spec_rollout_wf(s),
        s.stage !is Done,
    ensures
        spec_rollout_wf(spec_step(s, outcome, settings, now)),
{
    let inst = s.batch[s.next];
    let after = spec_after_op(inst, stage_deploys(s.stage), outcome, settings, now);
    let processed = s.processed.push(after);
    if !spec_op_succeeded(inst, outcome) {
        lemma_complete_wf(s.stage, s.old, s.new, processed + s.batch.skip(s.next + 1), false);
    } else if s.next + 1 == s.batch.len() {
        lemma_complete_wf(s.stage, s.old, s.new, processed, true);
    }
}

/// However the file system answers, a rollout hands back the instances it was given:
/// the instances to remove and the instances to deploy keep their number, their
/// identifiers and their order at every point of the rollout, and, once it has ended,
/// in what `Rollout::finish` returns.
pub proof fn lemma_rollout_keeps_instances(
    to_remove: Seq<ConfigInstance>,
    to_deploy: Seq<ConfigInstance>,
    steps: Seq<(Result<(), DeployErr>, int)>,
    settings: Settings,
)
    ensures
        ({
            let s = spec_run(spec_enter(Stage::RemoveOld, to_remove, to_deploy), steps, settings);
            &&& instance_ids(old_picture(s)) == instance_ids(to_remove)
            &&& instance_ids(new_picture(s)) == instance_ids(to_deploy)
            &&& old_picture(s).len() == to_remove.len()
            &&& new_picture(s).len() == to_deploy.len()
            &&& s.stage is Done ==> instance_ids(s.old) == instance_ids(to_remove) && instance_ids(s.new)
                == instance_ids(to_deploy)
        }),
{
    let s0 = spec_enter(Stage::RemoveOld, to_remove, to_deploy);
    lemma_enter_pictures(Stage::RemoveOld, to_remove, to_deploy);
    lemma_enter_wf(Stage::RemoveOld, to_remove, to_deploy);
    lemma_run_keeps_instances(s0, steps, settings);
    let s = spec_run(s0, steps, settings);
    assert(instance_ids(old_picture(s)).len() == old_picture(s).len());
    assert(instance_ids(to_remove).len() == to_remove.len());
    assert(instance_ids(new_picture(s)).len() == new_picture(s).len());
    assert(instance_ids(to_deploy).len() == to_deploy.len());
}

proof fn lemma_run_keeps_instances(s: RolloutState, steps: Seq<(Result<(), DeployErr>, int)>, settings: Settings)
    requires
        spec_rollout_wf(s),
    ensures
        spec_rollout_wf(spec_run(s, steps, settings)),
        instance_ids(old_picture(spec_run(s, steps, settings))) == instance_ids(old_picture(s)),
        instance_ids(new_picture(spec_run(s, steps, settings))) == instance_ids(new_picture(s)),
    decreases steps.len(),
{
    if steps.len() == 0 || s.stage is Done {
    } else {
        let t = spec_step(s, steps[0].0, settings, steps[0].1);
        lemma_step_wf(s, steps[0].0, settings, steps[0].1);
        lemma_step_keeps_instances(s, steps[0].0, settings, steps[0].1);
        lemma_run_keeps_instances(t, steps.drop_first(), settings);
    }
}

/// How many more steps the rollout takes at most: what is left of its stage, and the
/// stages that may follow it.
pub open spec fn steps_left(s: RolloutState) -> int {
    let here = s.batch.len() - s.next;
    match s.stage {
        Stage::RemoveOld => here + 2 * s.new.len() + s.old.len(),
        Stage::DeployNew => here + s.new.len() + s.old.len(),
        Stage::UndoNew => here + s.old.len(),
        Stage::RestoreOld => here,
        Stage::Done => 0,
    }
}

/// The most steps a rollout that begins `stage` with `o` old and `n` new instances takes.
pub open spec fn steps_from_entry(stage: Stage, o: int, n: int) -> int {
    match stage {
        Stage::RemoveOld => 2 * o + 2 * n,
        Stage::DeployNew => 2 * n + o,
        Stage::UndoNew => n + o,
        Stage::RestoreOld => o,
        Stage::Done => 0,
    }
}

/// The most steps a rollout takes after `stage` has ended.
pub open spec fn steps_after_stage(stage: Stage, o: int, n: int) -> int {
    match stage {
        Stage::RemoveOld => 2 * n + o,
        Stage::DeployNew => n + o,
        Stage::UndoNew => o,
        Stage::RestoreOld => 0,
        Stage::Done => 0,
    }
}

proof fn lemma_enter_steps(stage: Stage, old: Seq<ConfigInstance>, new: Seq<ConfigInstance>)
    ensures
        steps_left(spec_enter(stage, old, new)) <= steps_from_entry(stage, old.len() as int, new.len() as int),
    decreases stage_rank(stage), 1nat,
{
    let batch = if stage_handles_old(stage) {
        old
    } else {
        new
    };
    if stage !is Done && batch.len() == 0 {
        lemma_complete_steps(stage, old, new, Seq::empty(), true);
    }
}

proof fn lemma_complete_steps(
    stage: Stage,
    old: Seq<ConfigInstance>,
    new: Seq<ConfigInstance>,
    results: Seq<ConfigInstance>,
    succeeded: bool,
)
    requires
        results.len() == (if stage_handles_old(stage) {
            old.len()
        } else {
            new.len()
        }),
    ensures
        steps_left(spec_complete(stage, old, new, results, succeeded)) <= steps_after_stage(
            stage,
            old.len() as int,
            new.len() as int,
        ),
    decreases stage_rank(stage), 0nat,
{
    match stage {
        Stage::RemoveOld => lemma_enter_steps(Stage::DeployNew, results, new),
        Stage::DeployNew => if succeeded {
            lemma_enter_steps(Stage::Done, old, results)
        } else {
            lemma_enter_steps(Stage::UndoNew, old, results)
        },
        Stage::UndoNew => lemma_enter_steps(Stage::RestoreOld, old, results),
        Stage::RestoreOld => lemma_enter_steps(Stage::Done, results, new),
        Stage::Done => {},
    }
}

proof fn lemma_step_steps(s: RolloutState, outcome: Result<(), DeployErr>, settings: Settings, now: int)
    requires
        spec_rollout_wf(s),
        s.stage !is Done,
    ensures
        steps_left(spec_step(s, outcome, settings, now)) < steps_left(s),
{
    let inst = s.batch[s.next];
    let after = spec_after_op(inst, stage_deploys(s.stage), outcome, settings, now);
    let processed = s.processed.push(after);
    if !spec_op_succeeded(inst, outcome) {
        lemma_complete_steps(s.stage, s.old, s.new, processed + s.batch.skip(s.next + 1), false);
    } else if s.next + 1 == s.batch.len() {
        lemma_complete_steps(s.stage, s.old, s.new, processed, true);
    }
}

proof fn lemma_run_ends(s: RolloutState, steps: Seq<(Result<(), DeployErr>, int)>, settings: Settings)
    requires
        spec_rollout_wf(s),
        steps.len() >= steps_left(s),
    ensures
        spec_run(s, steps, settings).stage is Done,
    decreases steps.len(),
{
    if s.stage !is Done {
        let t = spec_step(s, steps[0].0, settings, steps[0].1);
        lemma_step_wf(s, steps[0].0, settings, steps[0].1);
        lemma_step_steps(s, steps[0].0, settings, steps[0].1);
        lemma_run_ends(t, steps.drop_first(), settings);
    }
}

/// A rollout always ends: after at most twice as many steps as it has instances (each
/// removed and deployed, and on a failed deployment each put back), whatever the file
/// system answers, it is done.
pub proof fn lemma_rollout_ends(
    to_remove: Seq<ConfigInstance>,
    to_deploy: Seq<ConfigInstance>,
    steps: Seq<(Result<(), DeployErr>, int)>,
    settings: Settings,
)
    requires
        steps.len() >= 2 * (to_remove.len() + to_deploy.len()),
    ensures
        spec_run(spec_enter(Stage::RemoveOld, to_remove, to_deploy), steps, settings).stage is Done,
{
    lemma_enter_wf(Stage::RemoveOld, to_remove, to_deploy);
    lemma_enter_steps(Stage::RemoveOld, to_remove, to_deploy);
    lemma_run_ends(spec_enter(Stage::RemoveOld, to_remove, to_deploy), steps, settings);
}

/// A failed removal does not stop the deployment: every step of the removal stage
/// either goes on removing or, once the stage has ended (whether its removals
/// succeeded or not), begins deploying the new instances from the first, unchanged.
pub proof fn lemma_removal_goes_on_to_deploy(
    s: RolloutState,
    outcome: Result<(), DeployErr>,
    settings: Settings,
    now: int,
)
    requires
        spec_rollout_wf(s),
        s.stage is RemoveOld,
        s.new.len() > 0,
    ensures
        ({
            let t = spec_step(s, outcome, settings, now);
            ||| t.stage is RemoveOld && t.next == s.next + 1 && t.new == s.new
            ||| t.stage is DeployNew && t.batch == s.new && t.next == 0 && t.processed.len() == 0 && t.old.len()
                == s.old.len()
        }),
{
    let inst = s.batch[s.next];
    let after = spec_after_op(inst, stage_deploys(s.stage), outcome, settings, now);
    let processed = s.processed.push(after);
    let rest = processed + s.batch.skip(s.next + 1);
    assert(rest.len() == s.batch.len());
}

/// A rollout with instances to deploy always reaches its deploy stage with all of
/// them: with nothing to remove it begins there, and otherwise the removal stage hands
/// over to it whatever the removals gave (see `lemma_removal_goes_on_to_deploy`).
pub proof fn lemma_rollout_begins_deploying(to_deploy: Seq<ConfigInstance>)
    requires
        to_deploy.len() > 0,
    ensures
        spec_enter(Stage::RemoveOld, Seq::empty(), to_deploy).stage is DeployNew,
        spec_enter(Stage::RemoveOld, Seq::empty(), to_deploy).batch == to_deploy,
        spec_enter(Stage::RemoveOld, Seq::empty(), to_deploy).next == 0,
{
    let empty = Seq::<ConfigInstance>::empty();
    assert(spec_enter(Stage::DeployNew, empty, to_deploy).stage is DeployNew);
    assert(spec_complete(Stage::RemoveOld, empty, to_deploy, empty, true) == spec_enter(
        Stage::DeployNew,
        empty,
        to_deploy,
    ));
    assert(spec_enter(Stage::RemoveOld, empty, to_deploy) == spec_complete(
        Stage::RemoveOld,
        empty,
        to_deploy,
        empty,
        true,
    ));
}

} // verus!
