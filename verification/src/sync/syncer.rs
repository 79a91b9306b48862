//! The bookkeeping of the sync loop: when the last sync was tried and succeeded, and
//! the cooldown that grows with each failure in a row.

use vstd::prelude::*;
use crate::time::{valid_delta_secs, valid_timestamp, MAX_DELTA_SECS, MAX_TIMESTAMP_MS, MIN_TIMESTAMP_MS};
use crate::utils::{calc_exp_backoff, spec_exp_backoff, CooldownOptions};

verus! {

/// What the syncer tells its subscribers.
#[derive(Debug, Clone, Copy, PartialEq, Eq, Structural)]
pub enum SyncStatus {
    Synced,
    NotSynced,
    CooldownEnded,
}

/// The state of the syncer. Instants are milliseconds since the epoch.
#[derive(Debug, Clone, Copy, PartialEq, Eq, Structural)]
pub struct SyncerState {
    pub last_sync_attempted_at: i64,
    pub last_successful_sync_at: i64,
    pub cooldown_ends_at: i64,
    pub err_streak: u32,
}

/// The cooldown, in seconds, after `err_streak` failed syncs in a row.
pub open spec fn spec_sync_cooldown_secs(options: CooldownOptions, err_streak: u32) -> int {
    spec_exp_backoff(options.base_secs as int, options.growth_factor as int, err_streak as nat, options.max_secs as int)
}

/// A failed sync at `now` can be recorded: the streak can grow and the cooldown it
/// starts is a span and an end instant that `chrono` can represent.
pub open spec fn spec_failure_recordable(state: SyncerState, options: CooldownOptions, now: int) -> bool {
    &&& state.err_streak < u32::MAX
    &&& valid_delta_secs(spec_sync_cooldown_secs(options, (state.err_streak + 1) as u32))
    &&& valid_timestamp(now + 1000 * spec_sync_cooldown_secs(options, (state.err_streak + 1) as u32))
}

/// The state after a successful sync at `now`: the streak is over and no cooldown runs.
pub open spec fn spec_after_success(state: SyncerState, now: i64) -> SyncerState {
    SyncerState { last_successful_sync_at: now, cooldown_ends_at: now, err_streak: 0, ..state }
}

/// The state after a failed sync at `now`: the streak grows by one and a cooldown of
/// the backoff for the new streak starts.
pub open spec fn spec_after_failure(state: SyncerState, options: CooldownOptions, now: i64) -> SyncerState {
    let streak = (state.err_streak + 1) as u32;
    SyncerState {
        cooldown_ends_at: (now + 1000 * spec_sync_cooldown_secs(options, streak)) as i64,
        err_streak: streak,
        ..state
    }
}

/// The syncer's backoff: one second after the first failure, doubling with each
/// further one, never more than twelve hours.
pub fn sync_cooldown_options() -> (r: CooldownOptions)
    ensures
        r.base_secs == 1,
        r.growth_factor == 2,
        r.max_secs == 12 * 60 * 60,
{
    CooldownOptions { base_secs: 1, growth_factor: 2, max_secs: 12 * 60 * 60 }
}

impl SyncerState {
    /// Every instant of the state is one `chrono` can represent.
    pub open spec fn wf(&self) -> bool {
        &&& valid_timestamp(self.last_sync_attempted_at as int)
        &&& valid_timestamp(self.last_successful_sync_at as int)
        &&& valid_timestamp(self.cooldown_ends_at as int)
    }

    /// The state of a syncer that has never synced: every instant at the epoch.
    pub fn new() -> (r: SyncerState)
        ensures
            r.last_sync_attempted_at == 0,
            r.last_successful_sync_at == 0,
            r.cooldown_ends_at == 0,
            r.err_streak == 0,
    {
        SyncerState { last_sync_attempted_at: 0, last_successful_sync_at: 0, cooldown_ends_at: 0, err_streak: 0 }
    }

    /// Whether the cooldown is still running at the instant `now`.
    pub fn is_in_cooldown(&self, now: i64) -> (r: bool)
        ensures
            r == (now < self.cooldown_ends_at),
    {
        now < self.cooldown_ends_at
    }

    /// Whether a sync asked for at `now` goes ahead: not while the cooldown runs.
    pub fn should_sync(&self, now: i64) -> (r: bool)
        ensures
            r == !(now < self.cooldown_ends_at),
    {
        !self.is_in_cooldown(now)
    }

    /// Records that a sync was tried at `now`.
    pub fn record_attempt(&mut self, now: i64)
        ensures
            *final(self) == (SyncerState { last_sync_attempted_at: now, ..*old(self) }),
    {
        self.last_sync_attempted_at = now;
    }

    /// Records a successful sync at `now`.
    pub fn record_success(&mut self, now: i64)
        ensures
            *final(self) == spec_after_success(*old(self), now),
    {
        self.last_successful_sync_at = now;
        self.cooldown_ends_at = now;
        self.err_streak = 0;
    }

    /// Whether `record_failure` can take a failure at `now`.
    pub fn failure_recordable(&self, options: &CooldownOptions, now: i64) -> (r: bool)
        ensures
            r == spec_failure_recordable(*self, *options, now as int),
    {
        if self.err_streak == u32::MAX {
            return false;
        }
        let secs = calc_exp_backoff(options.base_secs, options.growth_factor, self.err_streak + 1, options.max_secs);
        if secs < -MAX_DELTA_SECS || secs > MAX_DELTA_SECS {
            return false;
        }
        let end = now as i128 + 1000 * (secs as i128);
        MIN_TIMESTAMP_MS as i128 <= end && end <= MAX_TIMESTAMP_MS as i128
    }

    /// Records a failed sync at `now`: the streak grows and the next cooldown starts.
    pub fn record_failure(&mut self, options: &CooldownOptions, now: i64)
        requires
            spec_failure_recordable(*old(self), *options, now as int),
        ensures
            *final(self) == spec_after_failure(*old(self), *options, now),
    {
        self.err_streak = self.err_streak + 1;
        let cooldown_secs = calc_exp_backoff(
            options.base_secs,
            options.growth_factor,
            self.err_streak,
            options.max_secs,
        );
        self.cooldown_ends_at = now + cooldown_secs * 1000;
    }

    /// How long after `now` the end of the cooldown must be announced to subscribers,
    /// in whole seconds; none when it has already ended.
    pub fn cooldown_notification_delay(&self, now: i64) -> (r: Option<u64>)
        requires
            valid_timestamp(now as int),
            valid_timestamp(self.cooldown_ends_at as int),
        ensures
            self.cooldown_ends_at <= now ==> r is None,
            self.cooldown_ends_at > now ==> r == Some(((self.cooldown_ends_at - now) / 1000) as u64),
    {
        if self.cooldown_ends_at <= now {
            return None;
        }
        let millis = self.cooldown_ends_at - now;
        Some((millis / 1000) as u64)
    }
}

// =================================== LAWS ======================================== //
/// A successful sync ends any streak of failures, and a sync asked for right after
/// it goes ahead.
pub proof fn lemma_success_resets(state: SyncerState, now: i64, later: i64)
    requires
        now <= later,
    ensures
        spec_after_success(state, now).err_streak == 0,
        !(later < spec_after_success(state, now).cooldown_ends_at),
{
}

/// A failed sync starts a cooldown that ends no later than the configured maximum
/// after it; with a positive backoff, syncs asked for during it do not go ahead.
pub proof fn lemma_failure_cooldown_bounded(state: SyncerState, options: CooldownOptions, now: i64)
    requires
        spec_failure_recordable(state, options, now as int),
    ensures
        spec_after_failure(state, options, now).err_streak == state.err_streak + 1,
        spec_after_failure(state, options, now).cooldown_ends_at <= now + 1000 * options.max_secs,
        spec_sync_cooldown_secs(options, (state.err_streak + 1) as u32) > 0 ==> spec_after_failure(
            state,
            options,
            now,
        ).cooldown_ends_at > now,
{
}

/// Each further failure in a row waits at least as long as the one before, as long as
/// the backoff grows (a non-negative base and a growth factor of at least one).
pub proof fn lemma_failure_cooldowns_grow(state: SyncerState, options: CooldownOptions, now1: i64, now2: i64)
    requires
        options.base_secs >= 0,
        options.growth_factor >= 1,
        spec_failure_recordable(state, options, now1 as int),
        spec_failure_recordable(spec_after_failure(state, options, now1), options, now2 as int),
    ensures
        ({
            let first = spec_after_failure(state, options, now1);
            let second = spec_after_failure(first, options, now2);
            second.cooldown_ends_at - now2 >= first.cooldown_ends_at - now1
        }),
{
    crate::utils::lemma_exp_backoff_monotonic(
        options.base_secs,
        options.growth_factor,
        (state.err_streak + 1) as u32,
        (state.err_streak + 2) as u32,
        options.max_secs,
    );
}

} // verus!
