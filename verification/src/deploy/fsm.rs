//! The state machine of a config instance: which action it needs next and how its
//! statuses change when an action succeeds or fails.

use vstd::prelude::*;
use crate::errors::MiruError;
use crate::models::config_instance::{ActivityStatus, ConfigInstance, ErrorStatus, TargetStatus};
use crate::time::{valid_delta_secs, valid_timestamp, MAX_DELTA_SECS, MAX_TIMESTAMP_MS, MIN_TIMESTAMP_MS};
use crate::utils::{calc_exp_backoff, spec_exp_backoff};

verus! {

// ================================ NEXT ACTION ==================================== //
/// What the agent must do next with a config instance. `Wait` holds the time left of
/// its cooldown, in milliseconds.
#[derive(Debug, Clone, Copy, PartialEq, Eq, Structural)]
pub enum NextAction {
    NoAction,
    Deploy,
    Remove,
    Wait(i64),
}

/// The action that moves an instance with the given activity towards its target.
pub open spec fn spec_desired_action(target: TargetStatus, activity: ActivityStatus) -> NextAction {
    match target {
        TargetStatus::Created => match activity {
            ActivityStatus::Deployed => NextAction::Remove,
            _ => NextAction::NoAction,
        },
        TargetStatus::Deployed => match activity {
            ActivityStatus::Deployed => NextAction::NoAction,
            _ => NextAction::Deploy,
        },
        TargetStatus::Removed => match activity {
            ActivityStatus::Removed => NextAction::NoAction,
            _ => NextAction::Remove,
        },
    }
}

/// The next action of `instance` at the instant `now`: nothing once it has failed,
/// a wait while its cooldown runs (when cooldowns count), and otherwise the action
/// that moves it towards its target.
pub open spec fn spec_next_action(instance: ConfigInstance, use_cooldown: bool, now: int) -> NextAction {
    if instance.error_status == ErrorStatus::Failed {
        NextAction::NoAction
    } else if use_cooldown && instance.cooldown_ends_at > now {
        NextAction::Wait((instance.cooldown_ends_at - now) as i64)
    } else {
        spec_desired_action(instance.target_status, instance.activity_status)
    }
}

/// The next action of `instance` at the instant `now`.
pub fn next_action(instance: &ConfigInstance, use_cooldown: bool, now: i64) -> (r: NextAction)
    requires
        use_cooldown ==> instance.wf() && valid_timestamp(now as int),
    ensures
        r == spec_next_action(*instance, use_cooldown, now as int),
{
    // do nothing if the status is failed
    if instance.error_status == ErrorStatus::Failed {
        return NextAction::NoAction;
    }
    // check for cooldown
    if use_cooldown && instance.is_in_cooldown(now) {
        return NextAction::Wait(instance.cooldown_ends_at - now);
    }
    // determine the next action
    match instance.target_status {
        TargetStatus::Created => match instance.activity_status {
            ActivityStatus::Created => NextAction::NoAction,
            ActivityStatus::Queued => NextAction::NoAction,
            ActivityStatus::Deployed => NextAction::Remove,
            ActivityStatus::Removed => NextAction::NoAction,
        },
        TargetStatus::Deployed => match instance.activity_status {
            ActivityStatus::Created => NextAction::Deploy,
            ActivityStatus::Queued => NextAction::Deploy,
            ActivityStatus::Deployed => NextAction::NoAction,
            ActivityStatus::Removed => NextAction::Deploy,
        },
        TargetStatus::Removed => match instance.activity_status {
            ActivityStatus::Created => NextAction::Remove,
            ActivityStatus::Queued => NextAction::Remove,
            ActivityStatus::Deployed => NextAction::Remove,
            ActivityStatus::Removed => NextAction::NoAction,
        },
    }
}

/// Whether the next action of `instance` at `now`, with cooldowns counted, changes
/// something on the device.
pub fn action_required_at(instance: &ConfigInstance, now: i64) -> (r: bool)
    ensures
        r == spec_is_action_required(spec_next_action(*instance, true, now as int)),
{
    if instance.error_status == ErrorStatus::Failed {
        return false;
    }
    if instance.is_in_cooldown(now) {
        return false;
    }
    match instance.target_status {
        TargetStatus::Created => instance.activity_status == ActivityStatus::Deployed,
        TargetStatus::Deployed => instance.activity_status != ActivityStatus::Deployed,
        TargetStatus::Removed => instance.activity_status != ActivityStatus::Removed,
    }
}

/// Whether the action changes something on the device.
pub open spec fn spec_is_action_required(action: NextAction) -> bool {
    action is Deploy || action is Remove
}

pub fn is_action_required(action: NextAction) -> (r: bool)
    ensures
        r == spec_is_action_required(action),
{
    match action {
        NextAction::NoAction => false,
        NextAction::Deploy => true,
        NextAction::Remove => true,
        NextAction::Wait(_) => false,
    }
}

/// Limits of the retry policy.
#[derive(Debug, Clone, Copy)]
pub struct Settings {
    pub max_attempts: u32,
    pub exp_backoff_base_secs: i64,
    pub max_cooldown_secs: i64,
}

impl Default for Settings {
    fn default() -> (r: Self)
        ensures
            r.max_attempts == 2147483647,
            r.exp_backoff_base_secs == 15,
            r.max_cooldown_secs == 86400,
    {
        Settings {
            max_attempts: 2147483647,  // a VERY large number
            exp_backoff_base_secs: 15,
            max_cooldown_secs: 86400,  // 24 hours
        }
    }
}

// ================================== TRANSITIONS ================================== //
/// The fields a transition overwrites; `cooldown` is a span in milliseconds that
/// starts at the instant of the transition.
#[derive(Debug, Clone, Copy)]
pub struct TransitionOptions {
    pub activity_status: Option<ActivityStatus>,
    pub error_status: Option<ErrorStatus>,
    pub attempts: Option<u32>,
    pub cooldown: Option<i64>,
}

pub open spec fn spec_transition(instance: ConfigInstance, options: TransitionOptions, now: int) -> ConfigInstance {
    ConfigInstance {
        activity_status: match options.activity_status {
            Some(a) => a,
            None => instance.activity_status,
        },
        error_status: match options.error_status {
            Some(e) => e,
            None => instance.error_status,
        },
        attempts: match options.attempts {
            Some(a) => a,
            None => instance.attempts,
        },
        cooldown_ends_at: match options.cooldown {
            Some(c) => (now + c) as i64,
            None => instance.cooldown_ends_at,
        },
        ..instance
    }
}

fn transition(instance: ConfigInstance, options: TransitionOptions, now: i64) -> (r: ConfigInstance)
    requires
        options.cooldown matches Some(c) ==> valid_timestamp(now + c),
    ensures
        r == spec_transition(instance, options, now as int),
{
    let mut instance = instance;
    if let Some(activity_status) = options.activity_status {
        instance.activity_status = activity_status;
    }
    if let Some(error_status) = options.error_status {
        instance.error_status = error_status;
    }
    if let Some(attempts) = options.attempts {
        instance.attempts = attempts;
    }
    if let Some(cooldown) = options.cooldown {
        instance.set_cooldown(cooldown, now);
    }
    instance
}

// ---------------------------- successful transitions ----------------------------- //
/// Whether reaching `new_activity_status` ends the retries of `instance`: only a
/// retrying instance recovers, and only by reaching what its target asks for (for a
/// target of `Created`, anything but `Deployed`).
pub open spec fn spec_has_recovered(instance: ConfigInstance, new_activity_status: ActivityStatus) -> bool {
    &&& instance.error_status == ErrorStatus::Retrying
    &&& match instance.target_status {
        TargetStatus::Created => new_activity_status != ActivityStatus::Deployed,
        TargetStatus::Deployed => new_activity_status == ActivityStatus::Deployed,
        TargetStatus::Removed => new_activity_status == ActivityStatus::Removed,
    }
}

/// The instance after it reached `new_activity_status`.
pub open spec fn spec_succeed(instance: ConfigInstance, new_activity_status: ActivityStatus) -> ConfigInstance {
    if spec_has_recovered(instance, new_activity_status) {
        ConfigInstance {
            activity_status: new_activity_status,
            error_status: ErrorStatus::NoError,
            attempts: 0,
            ..instance
        }
    } else {
        ConfigInstance { activity_status: new_activity_status, ..instance }
    }
}

/// The instance after it was written to the device.
pub fn deploy(instance: ConfigInstance) -> (r: ConfigInstance)
    ensures
        r == spec_succeed(instance, ActivityStatus::Deployed),
{
    let new_activity_status = ActivityStatus::Deployed;
    let options = get_success_options(&instance, new_activity_status);
    transition(instance, options, 0)
}

/// The instance after it was deleted from the device.
pub fn remove(instance: ConfigInstance) -> (r: ConfigInstance)
    ensures
        r == spec_succeed(instance, ActivityStatus::Removed),
{
    let new_activity_status = ActivityStatus::Removed;
    let options = get_success_options(&instance, new_activity_status);
    transition(instance, options, 0)
}

fn get_success_options(instance: &ConfigInstance, new_activity_status: ActivityStatus) -> (r: TransitionOptions)
    ensures
        r.activity_status == Some(new_activity_status),
        r.error_status == (if spec_has_recovered(*instance, new_activity_status) {
            Some(ErrorStatus::NoError)
        } else {
            None
        }),
        r.attempts == (if spec_has_recovered(*instance, new_activity_status) {
            Some(0u32)
        } else {
            None
        }),
        r.cooldown is None,
{
    let recovered = has_recovered(instance, new_activity_status);
    TransitionOptions {
        activity_status: Some(new_activity_status),
        error_status: if recovered {
            Some(ErrorStatus::NoError)
        } else {
            None
        },
        // reset attempts and cooldown
        attempts: if recovered {
            Some(0)
        } else {
            None
        },
        cooldown: None,
    }
}

fn has_recovered(instance: &ConfigInstance, new_activity_status: ActivityStatus) -> (r: bool)
    ensures
        r == spec_has_recovered(*instance, new_activity_status),
{
    // the error status only needs to be updated if it is currently retrying. If is
    // failed then it can never exit failed and if it is None then it is already correct
    if instance.error_status != ErrorStatus::Retrying {
        return false;
    }
    // check if the new activity status matches the instance's target status
    match instance.target_status {
        // an instance whose target is created is satisfied with any status but deployed
        TargetStatus::Created => match new_activity_status {
            ActivityStatus::Created => true,
            ActivityStatus::Queued => true,
            ActivityStatus::Deployed => false,
            ActivityStatus::Removed => true,
        },
        TargetStatus::Deployed => match new_activity_status {
            ActivityStatus::Created => false,
            ActivityStatus::Queued => false,
            ActivityStatus::Deployed => true,
            ActivityStatus::Removed => false,
        },
        TargetStatus::Removed => match new_activity_status {
            ActivityStatus::Created => false,
            ActivityStatus::Queued => false,
            ActivityStatus::Deployed => false,
            ActivityStatus::Removed => true,
        },
    }
}

// ----------------------------- error transitions --------------------------------- //
/// The attempt count after a failure that counts (`increment`) or not.
pub open spec fn spec_error_attempts(instance: ConfigInstance, increment: bool) -> u32 {
    if increment {
        if instance.attempts == u32::MAX {
            u32::MAX
        } else {
            (instance.attempts + 1) as u32
        }
    } else {
        instance.attempts
    }
}

/// The cooldown, in seconds, that follows a failure leaving `attempts` attempts.
pub open spec fn spec_error_cooldown_secs(settings: Settings, attempts: u32) -> int {
    spec_exp_backoff(settings.exp_backoff_base_secs as int, 2, attempts as nat, settings.max_cooldown_secs as int)
}

/// The error status after a failure leaving `attempts` attempts: failed once the
/// attempts reach the maximum, and failed for good once failed.
pub open spec fn spec_error_status_after(instance: ConfigInstance, attempts: u32, settings: Settings) -> ErrorStatus {
    if attempts >= settings.max_attempts || instance.error_status == ErrorStatus::Failed {
        ErrorStatus::Failed
    } else {
        ErrorStatus::Retrying
    }
}

/// The instance after a failed action at the instant `now`; `counts` says whether the
/// failure adds to the attempts.
pub open spec fn spec_fail(instance: ConfigInstance, settings: Settings, counts: bool, now: int) -> ConfigInstance {
    let attempts = spec_error_attempts(instance, counts);
    ConfigInstance {
        error_status: spec_error_status_after(instance, attempts, settings),
        attempts: attempts,
        cooldown_ends_at: (now + 1000 * spec_error_cooldown_secs(settings, attempts)) as i64,
        ..instance
    }
}

/// Whether a failed action at `now` can be recorded: the cooldown it starts is a span
/// and an end instant that `chrono` can represent.
pub open spec fn spec_fail_in_range(instance: ConfigInstance, settings: Settings, counts: bool, now: int) -> bool {
    let secs = spec_error_cooldown_secs(settings, spec_error_attempts(instance, counts));
    &&& valid_delta_secs(secs)
    &&& valid_timestamp(now + 1000 * secs)
}

/// The instance after the action failed with `e` at the instant `now`. The failure
/// counts when `increment_attempts` holds and `e` is not a network connection error.
pub fn error<E: MiruError>(
    instance: ConfigInstance,
    settings: &Settings,
    e: &E,
    increment_attempts: bool,
    now: i64,
) -> (r: ConfigInstance)
    requires
        spec_fail_in_range(
            instance,
            *settings,
            increment_attempts && !e.spec_is_network_connection_error(),
            now as int,
        ),
    ensures
        r == spec_fail(
            instance,
            *settings,
            increment_attempts && !e.spec_is_network_connection_error(),
            now as int,
        ),
{
    let options = get_error_options(
        &instance,
        increment_attempts && should_increment_attempts(e),
        settings,
    );
    transition(instance, options, now)
}

pub fn should_increment_attempts<E: MiruError>(e: &E) -> (r: bool)
    ensures
        r == !e.spec_is_network_connection_error(),
{
    !e.is_network_connection_error()
}

fn get_error_options(instance: &ConfigInstance, increment_attempts: bool, settings: &Settings) -> (r: TransitionOptions)
    requires
        valid_delta_secs(spec_error_cooldown_secs(*settings, spec_error_attempts(*instance, increment_attempts))),
    ensures
        ({
            let attempts = spec_error_attempts(*instance, increment_attempts);
            &&& r.activity_status is None
            &&& r.error_status == Some(spec_error_status_after(*instance, attempts, *settings))
            &&& r.attempts == Some(attempts)
            &&& r.cooldown == Some((1000 * spec_error_cooldown_secs(*settings, attempts)) as i64)
        }),
{
    // determine the number of attempts
    let attempts = if increment_attempts {
        instance.attempts.saturating_add(1)
    } else {
        instance.attempts
    };
    // determine the new status
    let mut new_error_status = ErrorStatus::Retrying;
    if attempts >= settings.max_attempts || instance.error_status == ErrorStatus::Failed {
        new_error_status = ErrorStatus::Failed;
    }
    // determine the cooldown
    let cooldown = calc_exp_backoff(settings.exp_backoff_base_secs, 2, attempts, settings.max_cooldown_secs);
    TransitionOptions {
        activity_status: None,
        error_status: Some(new_error_status),
        attempts: Some(attempts),
        cooldown: Some(cooldown * 1000),
    }
}

/// Whether a failure at `now` can be recorded: the cooldown it starts is a span and an
/// end instant that `chrono` can represent.
pub fn fail_in_range(instance: &ConfigInstance, settings: &Settings, counts: bool, now: i64) -> (r: bool)
    ensures
        r == spec_fail_in_range(*instance, *settings, counts, now as int),
{
    let attempts = if counts {
        instance.attempts.saturating_add(1)
    } else {
        instance.attempts
    };
    let secs = calc_exp_backoff(settings.exp_backoff_base_secs, 2, attempts, settings.max_cooldown_secs);
    if secs < -MAX_DELTA_SECS || secs > MAX_DELTA_SECS {
        return false;
    }
    let end = now as i128 + 1000 * (secs as i128);
    MIN_TIMESTAMP_MS as i128 <= end && end <= MAX_TIMESTAMP_MS as i128
}

} // verus!
