//! What a request to sync the device is answered.

use vstd::prelude::*;
use crate::errors::MiruError;
use crate::sync::errors::SyncErr;
use crate::sync::syncer::SyncerState;
use crate::time::{format_timestamp, rfc3339_text};

verus! {

/// The outcome of a requested sync, as reported to the client.
#[derive(Debug, Clone, Copy, PartialEq, Eq, Structural)]
pub enum SyncDeviceResult {
    Success,
    NetworkConnectionError,
    InternalServerError,
}

/// The outcome of a sync: success, a lost connection, or another failure.
pub fn sync_device_result(result: &Result<(), SyncErr>) -> (r: SyncDeviceResult)
    ensures
        match result {
            Ok(_) => r == SyncDeviceResult::Success,
            Err(e) => if e.spec_is_network_connection_error() {
                r == SyncDeviceResult::NetworkConnectionError
            } else {
                r == SyncDeviceResult::InternalServerError
            },
        },
{
    match result {
        Ok(_) => SyncDeviceResult::Success,
        Err(e) => {
            if e.is_network_connection_error() {
                SyncDeviceResult::NetworkConnectionError
            } else {
                SyncDeviceResult::InternalServerError
            }
        },
    }
}

/// What a request to sync the device is answered: the outcome, a message, and the
/// syncer's state after the sync (its instants as RFC 3339 text).
#[derive(Debug, Clone, PartialEq, Eq)]
pub struct SyncDeviceResponse {
    pub code: SyncDeviceResult,
    pub message: String,
    pub last_synced_at: String,
    pub last_attempted_sync_at: String,
    pub is_cooling_down: bool,
    pub cooldown_ends_at: String,
}

/// The message of a successful sync.
pub open spec fn synced_message() -> Seq<char> {
    "successfully synced"@
}

/// The answer to a sync request, from the sync's outcome and the syncer's state at
/// `now`. A failed sync is described by `error_text`, the text of its error.
pub fn sync_device(result: &Result<(), SyncErr>, error_text: String, state: &SyncerState, now: i64) -> (r:
    SyncDeviceResponse)
    requires
        state.wf(),
    ensures
        match result {
            Ok(_) => r.code == SyncDeviceResult::Success && r.message@ == synced_message(),
            Err(e) => r.code == (if e.spec_is_network_connection_error() {
                SyncDeviceResult::NetworkConnectionError
            } else {
                SyncDeviceResult::InternalServerError
            }) && r.message == error_text,
        },
        r.last_synced_at@ == rfc3339_text(state.last_successful_sync_at),
        r.last_attempted_sync_at@ == rfc3339_text(state.last_sync_attempted_at),
        r.is_cooling_down == (now < state.cooldown_ends_at),
        r.cooldown_ends_at@ == rfc3339_text(state.cooldown_ends_at),
{
    let code = sync_device_result(result);
    let message = match result {
        Ok(_) => {
            proof {
                reveal_strlit("successfully synced");
            }
            "successfully synced".to_string()
        },
        Err(_) => error_text,
    };
    SyncDeviceResponse {
        code,
        message,
        last_synced_at: format_timestamp(state.last_successful_sync_at),
        last_attempted_sync_at: format_timestamp(state.last_sync_attempted_at),
        is_cooling_down: state.is_in_cooldown(now),
        cooldown_ends_at: format_timestamp(state.cooldown_ends_at),
    }
}

} // verus!
