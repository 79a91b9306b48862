//! Properties of the config instance state machine that span its transitions.

use vstd::prelude::*;
use crate::deploy::fsm::{
    spec_desired_action, spec_error_attempts, spec_fail, spec_fail_in_range, spec_is_action_required,
    spec_next_action, spec_succeed, NextAction, Settings,
};
use crate::models::config_instance::{ActivityStatus, ConfigInstance, ErrorStatus, TargetStatus};
use crate::utils::{clamp_i64, lemma_exp_backoff_capped, spec_exp_backoff};

verus! {

/// A failed instance stays failed whatever happens to it, and needs no action.
pub proof fn lemma_failed_is_terminal(
    instance: ConfigInstance,
    new_activity_status: ActivityStatus,
    settings: Settings,
    counts: bool,
    now: int,
    use_cooldown: bool,
)
    requires
        instance.error_status == ErrorStatus::Failed,
    ensures
        spec_succeed(instance, new_activity_status).error_status == ErrorStatus::Failed,
        spec_fail(instance, settings, counts, now).error_status == ErrorStatus::Failed,
        spec_next_action(instance, use_cooldown, now) == NextAction::NoAction,
{
}

/// Performing the action an instance needs brings it to its target: afterwards it
/// needs no further action.
pub proof fn lemma_action_reaches_target(instance: ConfigInstance, now: int)
    requires
        instance.error_status != ErrorStatus::Failed,
    ensures
        spec_desired_action(instance.target_status, instance.activity_status) == NextAction::Deploy
            ==> spec_next_action(spec_succeed(instance, ActivityStatus::Deployed), false, now)
            == NextAction::NoAction,
        spec_desired_action(instance.target_status, instance.activity_status) == NextAction::Remove
            ==> spec_next_action(spec_succeed(instance, ActivityStatus::Removed), false, now)
            == NextAction::NoAction,
{
}

/// A retrying instance that reaches its target is healthy again, with its attempts
/// reset.
pub proof fn lemma_recovery_resets_retries(instance: ConfigInstance)
    requires
        instance.error_status == ErrorStatus::Retrying,
    ensures
        spec_desired_action(instance.target_status, instance.activity_status) == NextAction::Deploy
            ==> ({
            let after = spec_succeed(instance, ActivityStatus::Deployed);
            after.error_status == ErrorStatus::NoError && after.attempts == 0
        }),
        spec_desired_action(instance.target_status, instance.activity_status) == NextAction::Remove
            ==> ({
            let after = spec_succeed(instance, ActivityStatus::Removed);
            after.error_status == ErrorStatus::NoError && after.attempts == 0
        }),
{
}

/// A success changes only the statuses and the attempts; a failure changes only the
/// error status, the attempts and the cooldown.
pub proof fn lemma_transitions_keep_identity(
    instance: ConfigInstance,
    new_activity_status: ActivityStatus,
    settings: Settings,
    counts: bool,
    now: int,
)
    ensures
        ({
            let s = spec_succeed(instance, new_activity_status);
            &&& s.id == instance.id
            &&& s.target_status == instance.target_status
            &&& s.config_schema_id == instance.config_schema_id
            &&& s.relative_filepath == instance.relative_filepath
            &&& s.cooldown_ends_at == instance.cooldown_ends_at
        }),
        ({
            let f = spec_fail(instance, settings, counts, now);
            &&& f.id == instance.id
            &&& f.target_status == instance.target_status
            &&& f.activity_status == instance.activity_status
            &&& f.config_schema_id == instance.config_schema_id
            &&& f.relative_filepath == instance.relative_filepath
        }),
{
}

/// Only failures that count add an attempt; the count never goes down, and the
/// instance fails for good once it reaches the maximum.
pub proof fn lemma_fail_counts_attempts(instance: ConfigInstance, settings: Settings, counts: bool, now: int)
    ensures
        ({
            let f = spec_fail(instance, settings, counts, now);
            &&& f.attempts >= instance.attempts
            &&& !counts ==> f.attempts == instance.attempts
            &&& counts && instance.attempts < u32::MAX ==> f.attempts == instance.attempts + 1
            &&& (f.error_status == ErrorStatus::Failed) == (f.attempts >= settings.max_attempts
                || instance.error_status == ErrorStatus::Failed)
            &&& f.error_status != ErrorStatus::NoError
        }),
{
}

/// The cooldown that follows a failure never lasts longer than the configured maximum.
pub proof fn lemma_fail_cooldown_capped(instance: ConfigInstance, settings: Settings, counts: bool, now: int)
    requires
        spec_fail_in_range(instance, settings, counts, now),
    ensures
        spec_fail(instance, settings, counts, now).cooldown_ends_at - now <= 1000 * settings.max_cooldown_secs,
{
    let attempts = spec_error_attempts(instance, counts);
    lemma_exp_backoff_capped(settings.exp_backoff_base_secs, 2, attempts, settings.max_cooldown_secs);
}

/// After a failure with a positive backoff base and cap, a retrying instance waits out
/// its cooldown before it is acted on again.
pub proof fn lemma_failure_waits_before_retry(instance: ConfigInstance, settings: Settings, counts: bool, now: int)
    requires
        spec_fail_in_range(instance, settings, counts, now),
        settings.exp_backoff_base_secs > 0,
        settings.max_cooldown_secs > 0,
        spec_fail(instance, settings, counts, now).error_status == ErrorStatus::Retrying,
    ensures
        spec_next_action(spec_fail(instance, settings, counts, now), true, now) is Wait,
        !spec_is_action_required(spec_next_action(spec_fail(instance, settings, counts, now), true, now)),
{
    let attempts = spec_error_attempts(instance, counts);
    vstd::arithmetic::power::lemma_pow_positive(2, attempts as nat);
    let p = clamp_i64(vstd::arithmetic::power::pow(2, attempts as nat));
    let b = settings.exp_backoff_base_secs as int;
    assert(p >= 1);
    assert(b * p >= 1) by (nonlinear_arith)
        requires
            b >= 1,
            p >= 1,
    ;
    assert(spec_exp_backoff(b, 2, attempts as nat, settings.max_cooldown_secs as int) >= 1);
}

/// An action is only required of an instance that has not failed and is not cooling
/// down (when cooldowns count).
pub proof fn lemma_required_action_preconditions(instance: ConfigInstance, use_cooldown: bool, now: int)
    requires
        spec_is_action_required(spec_next_action(instance, use_cooldown, now)),
    ensures
        instance.error_status != ErrorStatus::Failed,
        use_cooldown ==> instance.cooldown_ends_at <= now,
        spec_next_action(instance, use_cooldown, now) == spec_desired_action(
            instance.target_status,
            instance.activity_status,
        ),
{
}

/// What an instance that has not failed and is not cooling down (or whose cooldown
/// does not count) needs next, for every target and activity:
/// - to be deployed: a deploy whenever it is not deployed (whether it was never
///   deployed, is queued, or was removed, e.g. rolled back after a failed deployment),
///   and nothing once it is;
/// - to be removed: a removal whenever it is not removed, and nothing once it is;
/// - only to exist: a removal while it is deployed, and nothing otherwise.
pub proof fn lemma_next_action_moves_to_target(instance: ConfigInstance, use_cooldown: bool, now: int)
    requires
        instance.error_status != ErrorStatus::Failed,
        use_cooldown ==> instance.cooldown_ends_at <= now,
    ensures
        instance.target_status == TargetStatus::Deployed && instance.activity_status != ActivityStatus::Deployed
            ==> spec_next_action(instance, use_cooldown, now) == NextAction::Deploy,
        instance.target_status == TargetStatus::Deployed && instance.activity_status == ActivityStatus::Deployed
            ==> spec_next_action(instance, use_cooldown, now) == NextAction::NoAction,
        instance.target_status == TargetStatus::Removed && instance.activity_status != ActivityStatus::Removed
            ==> spec_next_action(instance, use_cooldown, now) == NextAction::Remove,
        instance.target_status == TargetStatus::Removed && instance.activity_status == ActivityStatus::Removed
            ==> spec_next_action(instance, use_cooldown, now) == NextAction::NoAction,
        instance.target_status == TargetStatus::Created && instance.activity_status == ActivityStatus::Deployed
            ==> spec_next_action(instance, use_cooldown, now) == NextAction::Remove,
        instance.target_status == TargetStatus::Created && instance.activity_status != ActivityStatus::Deployed
            ==> spec_next_action(instance, use_cooldown, now) == NextAction::NoAction,
{
}

/// An instance whose deployment failed and was rolled back (target deployed, activity
/// removed, retrying) is deployed again once its cooldown is over, and needs an action
/// then.
pub proof fn lemma_rolled_back_instance_is_retried(instance: ConfigInstance, now: int)
    requires
        instance.target_status == TargetStatus::Deployed,
        instance.activity_status == ActivityStatus::Removed,
        instance.error_status == ErrorStatus::Retrying,
        instance.cooldown_ends_at <= now,
    ensures
        spec_next_action(instance, true, now) == NextAction::Deploy,
        spec_is_action_required(spec_next_action(instance, true, now)),
{
    lemma_next_action_moves_to_target(instance, true, now);
}

} // verus!
