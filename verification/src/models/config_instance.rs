//! Config instances: a configuration the backend wants deployed on the device, with
//! the statuses that drive its deployment.

use vstd::prelude::*;
use crate::cache::entry::CacheValue;
use crate::ids::{spec_unknown_id, unknown_id};
use crate::strings::str_eq;
use crate::time::{
    format_timestamp, parse_valid_timestamp, parsed_valid_timestamp, rfc3339_text, valid_timestamp, MAX_TIMESTAMP_MS,
    MIN_TIMESTAMP_MS,
};

verus! {

// =============================== TARGET STATUS ================================== //
/// The status the backend wants a config instance to reach.
#[derive(Clone, Copy, Debug, PartialEq, Eq, Structural, Hash)]
pub enum TargetStatus {
    Created,
    Deployed,
    Removed,
}

impl Default for TargetStatus {
    fn default() -> (r: Self)
        ensures
            r == TargetStatus::Created,
    {
        TargetStatus::Created
    }
}

impl TargetStatus {
    pub fn variants() -> (r: Vec<TargetStatus>)
        ensures
            r@ == seq![TargetStatus::Created, TargetStatus::Deployed, TargetStatus::Removed],
    {
        vec![TargetStatus::Created, TargetStatus::Deployed, TargetStatus::Removed]
    }

    /// The snake-case wire name of the status.
    pub fn as_str(&self) -> (r: &'static str)
        ensures
            r@ == spec_target_status_str(*self),
    {
        match self {
            TargetStatus::Created => "created",
            TargetStatus::Deployed => "deployed",
            TargetStatus::Removed => "removed",
        }
    }

    /// Reads a wire name; an unknown name falls back to the default, `Created`.
    pub fn from_str_or_default(s: &str) -> (r: TargetStatus)
        ensures
            r == spec_parse_target_status(s@),
    {
        if str_eq(s, "deployed") {
            TargetStatus::Deployed
        } else if str_eq(s, "removed") {
            TargetStatus::Removed
        } else {
            TargetStatus::Created
        }
    }
}

pub open spec fn spec_target_status_str(s: TargetStatus) -> Seq<char> {
    match s {
        TargetStatus::Created => "created"@,
        TargetStatus::Deployed => "deployed"@,
        TargetStatus::Removed => "removed"@,
    }
}

// ============================== ACTIVITY STATUS ================================== //
/// Where the agent has got with a config instance on the device.
#[derive(Clone, Copy, Debug, PartialEq, Eq, Structural, Hash)]
pub enum ActivityStatus {
    Created,
    Queued,
    Deployed,
    Removed,
}

impl Default for ActivityStatus {
    fn default() -> (r: Self)
        ensures
            r == ActivityStatus::Created,
    {
        ActivityStatus::Created
    }
}

impl ActivityStatus {
    pub fn variants() -> (r: Vec<ActivityStatus>)
        ensures
            r@ == seq![
                ActivityStatus::Created,
                ActivityStatus::Queued,
                ActivityStatus::Deployed,
                ActivityStatus::Removed,
            ],
    {
        vec![
            ActivityStatus::Created,
            ActivityStatus::Queued,
            ActivityStatus::Deployed,
            ActivityStatus::Removed,
        ]
    }

    /// The snake-case wire name of the status.
    pub fn as_str(&self) -> (r: &'static str)
        ensures
            r@ == spec_activity_status_str(*self),
    {
        match self {
            ActivityStatus::Created => "created",
            ActivityStatus::Queued => "queued",
            ActivityStatus::Deployed => "deployed",
            ActivityStatus::Removed => "removed",
        }
    }

    /// Reads a wire name; an unknown name falls back to the default, `Created`.
    pub fn from_str_or_default(s: &str) -> (r: ActivityStatus)
        ensures
            r == spec_parse_activity_status(s@),
    {
        if str_eq(s, "queued") {
            ActivityStatus::Queued
        } else if str_eq(s, "deployed") {
            ActivityStatus::Deployed
        } else if str_eq(s, "removed") {
            ActivityStatus::Removed
        } else {
            ActivityStatus::Created
        }
    }
}

pub open spec fn spec_activity_status_str(s: ActivityStatus) -> Seq<char> {
    match s {
        ActivityStatus::Created => "created"@,
        ActivityStatus::Queued => "queued"@,
        ActivityStatus::Deployed => "deployed"@,
        ActivityStatus::Removed => "removed"@,
    }
}

// =============================== ERROR STATUS ==================================== //
/// Whether the deployment of a config instance is failing.
#[derive(Clone, Copy, Debug, PartialEq, Eq, Structural, Hash)]
pub enum ErrorStatus {
    NoError,
    Failed,
    Retrying,
}

impl Default for ErrorStatus {
    fn default() -> (r: Self)
        ensures
            r == ErrorStatus::NoError,
    {
        ErrorStatus::NoError
    }
}

impl ErrorStatus {
    pub fn variants() -> (r: Vec<ErrorStatus>)
        ensures
            r@ == seq![ErrorStatus::NoError, ErrorStatus::Failed, ErrorStatus::Retrying],
    {
        vec![ErrorStatus::NoError, ErrorStatus::Failed, ErrorStatus::Retrying]
    }

    /// The snake-case wire name of the status.
    pub fn as_str(&self) -> (r: &'static str)
        ensures
            r@ == spec_error_status_str(*self),
    {
        match self {
            ErrorStatus::NoError => "none",
            ErrorStatus::Failed => "failed",
            ErrorStatus::Retrying => "retrying",
        }
    }

    /// Reads a wire name; an unknown name falls back to the default, `None`.
    pub fn from_str_or_default(s: &str) -> (r: ErrorStatus)
        ensures
            r == spec_parse_error_status(s@),
    {
        if str_eq(s, "failed") {
            ErrorStatus::Failed
        } else if str_eq(s, "retrying") {
            ErrorStatus::Retrying
        } else {
            ErrorStatus::NoError
        }
    }
}

pub open spec fn spec_error_status_str(s: ErrorStatus) -> Seq<char> {
    match s {
        ErrorStatus::NoError => "none"@,
        ErrorStatus::Failed => "failed"@,
        ErrorStatus::Retrying => "retrying"@,
    }
}

// ================================== STATUS ======================================= //
/// The single status shown to users: the error status when there is one, the
/// activity status otherwise.
#[derive(Clone, Copy, Debug, PartialEq, Eq, Structural, Hash)]
pub enum Status {
    Created,
    Queued,
    Deployed,
    Removed,
    Failed,
    Retrying,
}

impl Default for Status {
    fn default() -> (r: Self)
        ensures
            r == Status::Created,
    {
        Status::Created
    }
}

impl Status {
    pub fn variants() -> (r: Vec<Status>)
        ensures
            r@ == seq![
                Status::Created,
                Status::Queued,
                Status::Deployed,
                Status::Removed,
                Status::Failed,
                Status::Retrying,
            ],
    {
        vec![
            Status::Created,
            Status::Queued,
            Status::Deployed,
            Status::Removed,
            Status::Failed,
            Status::Retrying,
        ]
    }

    /// The snake-case wire name of the status.
    pub fn as_str(&self) -> (r: &'static str)
        ensures
            r@ == spec_status_str(*self),
    {
        match self {
            Status::Created => "created",
            Status::Queued => "queued",
            Status::Deployed => "deployed",
            Status::Removed => "removed",
            Status::Failed => "failed",
            Status::Retrying => "retrying",
        }
    }

    /// Reads a wire name; an unknown name falls back to the default, `Created`.
    pub fn from_str_or_default(s: &str) -> (r: Status)
        ensures
            r == spec_parse_status(s@),
    {
        if str_eq(s, "queued") {
            Status::Queued
        } else if str_eq(s, "deployed") {
            Status::Deployed
        } else if str_eq(s, "removed") {
            Status::Removed
        } else if str_eq(s, "failed") {
            Status::Failed
        } else if str_eq(s, "retrying") {
            Status::Retrying
        } else {
            Status::Created
        }
    }
}

pub open spec fn spec_status_str(s: Status) -> Seq<char> {
    match s {
        Status::Created => "created"@,
        Status::Queued => "queued"@,
        Status::Deployed => "deployed"@,
        Status::Removed => "removed"@,
        Status::Failed => "failed"@,
        Status::Retrying => "retrying"@,
    }
}

/// The user-facing status of an instance with the given error and activity statuses.
pub open spec fn spec_status(error_status: ErrorStatus, activity_status: ActivityStatus) -> Status {
    match error_status {
        ErrorStatus::NoError => match activity_status {
            ActivityStatus::Created => Status::Created,
            ActivityStatus::Queued => Status::Queued,
            ActivityStatus::Deployed => Status::Deployed,
            ActivityStatus::Removed => Status::Removed,
        },
        ErrorStatus::Retrying => Status::Retrying,
        ErrorStatus::Failed => Status::Failed,
    }
}

/// The target status a wire name reads as; an unknown name reads as the default.
pub open spec fn spec_parse_target_status(s: Seq<char>) -> TargetStatus {
    if s == "deployed"@ {
        TargetStatus::Deployed
    } else if s == "removed"@ {
        TargetStatus::Removed
    } else {
        TargetStatus::Created
    }
}

/// The activity status a wire name reads as; an unknown name reads as the default.
pub open spec fn spec_parse_activity_status(s: Seq<char>) -> ActivityStatus {
    if s == "queued"@ {
        ActivityStatus::Queued
    } else if s == "deployed"@ {
        ActivityStatus::Deployed
    } else if s == "removed"@ {
        ActivityStatus::Removed
    } else {
        ActivityStatus::Created
    }
}

/// The error status a wire name reads as; an unknown name reads as the default.
pub open spec fn spec_parse_error_status(s: Seq<char>) -> ErrorStatus {
    if s == "failed"@ {
        ErrorStatus::Failed
    } else if s == "retrying"@ {
        ErrorStatus::Retrying
    } else {
        ErrorStatus::NoError
    }
}

/// The status a wire name reads as; an unknown name reads as the default.
pub open spec fn spec_parse_status(s: Seq<char>) -> Status {
    if s == "queued"@ {
        Status::Queued
    } else if s == "deployed"@ {
        Status::Deployed
    } else if s == "removed"@ {
        Status::Removed
    } else if s == "failed"@ {
        Status::Failed
    } else if s == "retrying"@ {
        Status::Retrying
    } else {
        Status::Created
    }
}

// =================================== LAWS ======================================== //
/// Every status reads back from its wire name.
pub proof fn lemma_status_names_round_trip(t: TargetStatus, a: ActivityStatus, e: ErrorStatus, s: Status)
    ensures
        spec_parse_target_status(spec_target_status_str(t)) == t,
        spec_parse_activity_status(spec_activity_status_str(a)) == a,
        spec_parse_error_status(spec_error_status_str(e)) == e,
        spec_parse_status(spec_status_str(s)) == s,
{
    reveal_strlit("created");
    reveal_strlit("queued");
    reveal_strlit("deployed");
    reveal_strlit("removed");
    reveal_strlit("none");
    reveal_strlit("failed");
    reveal_strlit("retrying");
    assert("created"@[0] != "queued"@[0]);
    assert("created"@[0] != "deployed"@[0]);
    assert("created"@[0] != "removed"@[0]);
    assert("created"@[0] != "none"@[0]);
    assert("created"@[0] != "failed"@[0]);
    assert("created"@[0] != "retrying"@[0]);
    assert("queued"@[0] != "deployed"@[0]);
    assert("queued"@[0] != "removed"@[0]);
    assert("queued"@[0] != "none"@[0]);
    assert("queued"@[0] != "failed"@[0]);
    assert("queued"@[0] != "retrying"@[0]);
    assert("deployed"@[0] != "removed"@[0]);
    assert("deployed"@[0] != "none"@[0]);
    assert("deployed"@[0] != "failed"@[0]);
    assert("deployed"@[0] != "retrying"@[0]);
    assert("removed"@[0] != "none"@[0]);
    assert("removed"@[0] != "failed"@[0]);
    assert("removed"@[2] != "retrying"@[2]);
    assert("none"@[0] != "failed"@[0]);
    assert("none"@[0] != "retrying"@[0]);
    assert("failed"@[0] != "retrying"@[0]);
}

// =============================== CONFIG INSTANCE ================================= //
pub type ConfigInstanceID = String;

/// A config instance as the agent stores it. Instants are milliseconds since the epoch.
#[derive(Clone, Debug)]
pub struct ConfigInstance {
    pub id: String,
    pub target_status: TargetStatus,
    pub activity_status: ActivityStatus,
    pub error_status: ErrorStatus,
    pub relative_filepath: Option<String>,
    pub patch_id: Option<String>,
    pub created_by_id: Option<String>,
    pub created_at: i64,
    pub updated_by_id: Option<String>,
    pub updated_at: i64,
    pub device_id: String,
    pub config_schema_id: String,
    pub config_type_id: String,
    // fsm fields
    pub attempts: u32,
    pub cooldown_ends_at: i64,
}

/// A copy of an optional string that is known to be equal to it.
pub fn copy_opt_string(s: &Option<String>) -> (r: Option<String>)
    ensures
        r == *s,
{
    match s {
        Some(v) => Some(v.clone()),
        None => None,
    }
}

impl ConfigInstance {
    /// Every instant of the instance is one that a `DateTime<Utc>` can hold.
    pub open spec fn wf(&self) -> bool {
        &&& valid_timestamp(self.created_at as int)
        &&& valid_timestamp(self.updated_at as int)
        &&& valid_timestamp(self.cooldown_ends_at as int)
    }

    /// Whether every instant of the instance is representable.
    pub fn is_valid(&self) -> (r: bool)
        ensures
            r == self.wf(),
    {
        MIN_TIMESTAMP_MS <= self.created_at && self.created_at <= MAX_TIMESTAMP_MS && MIN_TIMESTAMP_MS
            <= self.updated_at && self.updated_at <= MAX_TIMESTAMP_MS && MIN_TIMESTAMP_MS <= self.cooldown_ends_at
            && self.cooldown_ends_at <= MAX_TIMESTAMP_MS
    }

    /// A field-by-field copy, equal to `self`.
    pub fn duplicate(&self) -> (r: ConfigInstance)
        ensures
            r == *self,
    {
        ConfigInstance {
            id: self.id.clone(),
            target_status: self.target_status,
            activity_status: self.activity_status,
            error_status: self.error_status,
            relative_filepath: copy_opt_string(&self.relative_filepath),
            patch_id: copy_opt_string(&self.patch_id),
            created_by_id: copy_opt_string(&self.created_by_id),
            created_at: self.created_at,
            updated_by_id: copy_opt_string(&self.updated_by_id),
            updated_at: self.updated_at,
            device_id: self.device_id.clone(),
            config_schema_id: self.config_schema_id.clone(),
            config_type_id: self.config_type_id.clone(),
            attempts: self.attempts,
            cooldown_ends_at: self.cooldown_ends_at,
        }
    }

    /// The user-facing status.
    pub fn status(&self) -> (r: Status)
        ensures
            r == spec_status(self.error_status, self.activity_status),
    {
        match self.error_status {
            ErrorStatus::NoError => match self.activity_status {
                ActivityStatus::Created => Status::Created,
                ActivityStatus::Queued => Status::Queued,
                ActivityStatus::Deployed => Status::Deployed,
                ActivityStatus::Removed => Status::Removed,
            },
            ErrorStatus::Retrying => Status::Retrying,
            ErrorStatus::Failed => Status::Failed,
        }
    }

    /// Starts a cooldown of `duration_ms` from the instant `now`.
    pub fn set_cooldown(&mut self, duration_ms: i64, now: i64)
        requires
            valid_timestamp(now + duration_ms),
        ensures
            *final(self) == (ConfigInstance { cooldown_ends_at: (now + duration_ms) as i64, ..*old(self) }),
    {
        self.cooldown_ends_at = now + duration_ms;
    }

    /// Ends any cooldown.
    pub fn clear_cooldown(&mut self)
        ensures
            *final(self) == (ConfigInstance { cooldown_ends_at: 0, ..*old(self) }),
    {
        self.cooldown_ends_at = 0;
    }

    /// Whether the cooldown is still running at the instant `now`.
    pub fn is_in_cooldown(&self, now: i64) -> (r: bool)
        ensures
            r == (self.cooldown_ends_at > now),
    {
        self.cooldown_ends_at > now
    }

    /// What is left of the cooldown at the instant `now`, in milliseconds (negative once
    /// it has ended).
    pub fn cooldown(&self, now: i64) -> (r: i64)
        requires
            self.wf(),
            valid_timestamp(now as int),
        ensures
            r == self.cooldown_ends_at - now,
    {
        self.cooldown_ends_at - now
    }
}

impl CacheValue for ConfigInstance {
    fn duplicate(&self) -> (r: ConfigInstance)
        ensures
            r == *self,
    {
        ConfigInstance::duplicate(self)
    }
}

impl ConfigInstance {
    /// An instance that wants nothing, with made-up identifiers (`unknown-` and the UUID
    /// texts given, which the caller draws) and every instant at the epoch.
    pub fn default_with_uuids(id_uuid: &str, device_uuid: &str, schema_uuid: &str, type_uuid: &str) -> (r: Self)
        ensures
            r.id@ == spec_unknown_id(id_uuid@),
            r.target_status == TargetStatus::Created,
            r.activity_status == ActivityStatus::Created,
            r.error_status == ErrorStatus::NoError,
            r.relative_filepath is None,
            r.patch_id is None,
            r.created_by_id is None,
            r.created_at == 0,
            r.updated_by_id is None,
            r.updated_at == 0,
            r.device_id@ == spec_unknown_id(device_uuid@),
            r.config_schema_id@ == spec_unknown_id(schema_uuid@),
            r.config_type_id@ == spec_unknown_id(type_uuid@),
            r.attempts == 0,
            r.cooldown_ends_at == 0,
    {
        Self {
            id: unknown_id(id_uuid),
            target_status: TargetStatus::Created,
            activity_status: ActivityStatus::Created,
            error_status: ErrorStatus::NoError,
            relative_filepath: None,
            patch_id: None,
            created_by_id: None,
            created_at: 0,
            updated_by_id: None,
            updated_at: 0,
            device_id: unknown_id(device_uuid),
            config_schema_id: unknown_id(schema_uuid),
            config_type_id: unknown_id(type_uuid),
            attempts: 0,
            cooldown_ends_at: 0,
        }
    }
}

// ================================ FROM THE BACKEND =============================== //
/// A config instance as the backend sends it: statuses by name, instants as RFC 3339
/// text, and its data (as JSON text) when it was asked for.
#[derive(Debug)]
pub struct BackendConfigInstance {
    pub id: String,
    pub target_status: TargetStatus,
    pub activity_status: ActivityStatus,
    pub error_status: ErrorStatus,
    pub relative_filepath: Option<String>,
    pub patch_id: Option<String>,
    pub created_at: String,
    pub updated_at: String,
    pub created_by_id: Option<String>,
    pub updated_by_id: Option<String>,
    pub device_id: String,
    pub config_schema_id: String,
    pub config_type_id: String,
    pub content: Option<String>,
}

impl BackendConfigInstance {
    /// A field-by-field copy, equal to `self`.
    pub fn duplicate(&self) -> (r: BackendConfigInstance)
        ensures
            r == *self,
    {
        BackendConfigInstance {
            id: self.id.clone(),
            target_status: self.target_status,
            activity_status: self.activity_status,
            error_status: self.error_status,
            relative_filepath: copy_opt_string(&self.relative_filepath),
            patch_id: copy_opt_string(&self.patch_id),
            created_at: self.created_at.clone(),
            updated_at: self.updated_at.clone(),
            created_by_id: copy_opt_string(&self.created_by_id),
            updated_by_id: copy_opt_string(&self.updated_by_id),
            device_id: self.device_id.clone(),
            config_schema_id: self.config_schema_id.clone(),
            config_type_id: self.config_type_id.clone(),
            content: copy_opt_string(&self.content),
        }
    }
}

/// The instant `chrono` reads from the text, or the epoch where it reads none in the
/// representable range.
pub open spec fn parsed_or_epoch(s: Seq<char>) -> i64 {
    match parsed_valid_timestamp(s) {
        Some(ms) => ms,
        None => 0,
    }
}

fn parse_or_epoch(s: &str) -> (r: i64)
    ensures
        r == parsed_or_epoch(s@),
        valid_timestamp(r as int),
{
    match parse_valid_timestamp(s) {
        Some(ms) => ms,
        None => 0,
    }
}

/// The instance the agent stores for one the backend sent: a fresh one, with no
/// attempts and no cooldown; an instant that does not parse becomes the epoch.
pub open spec fn spec_from_backend(b: BackendConfigInstance) -> ConfigInstance {
    ConfigInstance {
        id: b.id,
        target_status: b.target_status,
        activity_status: b.activity_status,
        error_status: b.error_status,
        relative_filepath: b.relative_filepath,
        patch_id: b.patch_id,
        created_by_id: b.created_by_id,
        created_at: parsed_or_epoch(b.created_at@),
        updated_by_id: b.updated_by_id,
        updated_at: parsed_or_epoch(b.updated_at@),
        device_id: b.device_id,
        config_schema_id: b.config_schema_id,
        config_type_id: b.config_type_id,
        attempts: 0,
        cooldown_ends_at: 0,
    }
}

/// The instance stored for one the backend sent keeps its identity and its statuses:
/// its own identifier, its device, its schema, its config type, its file path and its
/// target, activity and error statuses are the backend's; it starts with no attempts
/// and no cooldown.
pub proof fn lemma_from_backend_keeps_identity(b: BackendConfigInstance)
    ensures
        spec_from_backend(b).id == b.id,
        spec_from_backend(b).device_id == b.device_id,
        spec_from_backend(b).config_schema_id == b.config_schema_id,
        spec_from_backend(b).config_type_id == b.config_type_id,
        spec_from_backend(b).relative_filepath == b.relative_filepath,
        spec_from_backend(b).target_status == b.target_status,
        spec_from_backend(b).activity_status == b.activity_status,
        spec_from_backend(b).error_status == b.error_status,
        spec_from_backend(b).attempts == 0,
        spec_from_backend(b).cooldown_ends_at == 0,
{
}

// ================================= RESPONSES ===================================== //
/// A config instance as the agent's clients receive it: its statuses, its instants as
/// RFC 3339 text, and its content (JSON text).
#[derive(Debug, Clone)]
pub struct SdkConfigInstance {
    pub id: String,
    pub target_status: TargetStatus,
    pub status: Status,
    pub activity_status: ActivityStatus,
    pub error_status: ErrorStatus,
    pub relative_filepath: Option<String>,
    pub created_at: String,
    pub updated_at: String,
    pub config_schema_id: String,
    pub config_type_id: String,
    pub content: String,
}

impl ConfigInstance {
    /// The instance with its content, as a client receives it.
    pub fn to_sdk(cfg_inst: ConfigInstance, content: String) -> (r: SdkConfigInstance)
        requires
            cfg_inst.wf(),
        ensures
            r.id == cfg_inst.id,
            r.target_status == cfg_inst.target_status,
            r.status == spec_status(cfg_inst.error_status, cfg_inst.activity_status),
            r.activity_status == cfg_inst.activity_status,
            r.error_status == cfg_inst.error_status,
            r.relative_filepath == cfg_inst.relative_filepath,
            r.created_at@ == rfc3339_text(cfg_inst.created_at),
            r.updated_at@ == rfc3339_text(cfg_inst.updated_at),
            r.config_schema_id == cfg_inst.config_schema_id,
            r.config_type_id == cfg_inst.config_type_id,
            r.content == content,
    {
        let status = cfg_inst.status();
        let created_at = format_timestamp(cfg_inst.created_at);
        let updated_at = format_timestamp(cfg_inst.updated_at);
        SdkConfigInstance {
            id: cfg_inst.id,
            target_status: cfg_inst.target_status,
            status,
            activity_status: cfg_inst.activity_status,
            error_status: cfg_inst.error_status,
            relative_filepath: cfg_inst.relative_filepath,
            created_at,
            updated_at,
            config_schema_id: cfg_inst.config_schema_id,
            config_type_id: cfg_inst.config_type_id,
            content,
        }
    }
}

// ================================ DESERIALIZING ================================== //
/// A stored config instance as read from its JSON form, before the defaults of the
/// fields it may lack are filled in.
#[derive(Debug)]
pub struct DeserializedConfigInstance {
    pub id: String,
    pub target_status: TargetStatus,
    pub activity_status: ActivityStatus,
    pub error_status: ErrorStatus,
    pub device_id: String,
    pub config_schema_id: String,
    pub config_type_id: String,
    pub created_at: Option<i64>,
    pub updated_at: Option<i64>,
    pub attempts: Option<u32>,
    pub cooldown_ends_at: Option<i64>,
    pub relative_filepath: Option<String>,
    pub patch_id: Option<String>,
    pub created_by_id: Option<String>,
    pub updated_by_id: Option<String>,
}

/// The value, or the default where there is none.
pub open spec fn or_default<T>(v: Option<T>, d: T) -> T {
    match v {
        Some(x) => x,
        None => d,
    }
}

impl ConfigInstance {
    /// The instance for one the backend sent.
    pub fn from_backend(backend_instance: BackendConfigInstance) -> (r: ConfigInstance)
        ensures
            r == spec_from_backend(backend_instance),
            r.wf(),
            r.id == backend_instance.id,
            r.device_id == backend_instance.device_id,
            r.config_schema_id == backend_instance.config_schema_id,
            r.config_type_id == backend_instance.config_type_id,
            r.target_status == backend_instance.target_status,
            r.activity_status == backend_instance.activity_status,
            r.error_status == backend_instance.error_status,
            r.relative_filepath == backend_instance.relative_filepath,
    {
        let created_at = parse_or_epoch(backend_instance.created_at.as_str());
        let updated_at = parse_or_epoch(backend_instance.updated_at.as_str());
        ConfigInstance {
            id: backend_instance.id,
            target_status: backend_instance.target_status,
            activity_status: backend_instance.activity_status,
            error_status: backend_instance.error_status,
            relative_filepath: backend_instance.relative_filepath,
            patch_id: backend_instance.patch_id,
            created_at,
            updated_at,
            created_by_id: backend_instance.created_by_id,
            updated_by_id: backend_instance.updated_by_id,
            device_id: backend_instance.device_id,
            config_schema_id: backend_instance.config_schema_id,
            config_type_id: backend_instance.config_type_id,
            // fsm fields
            attempts: 0,
            cooldown_ends_at: 0,
        }
    }

    /// The stored instance read from JSON: fields it lacks take the defaults (the epoch
    /// for instants, no attempts).
    pub fn from_deserialized(d: DeserializedConfigInstance) -> (r: ConfigInstance)
        ensures
            r == (ConfigInstance {
                id: d.id,
                target_status: d.target_status,
                activity_status: d.activity_status,
                error_status: d.error_status,
                relative_filepath: d.relative_filepath,
                patch_id: d.patch_id,
                created_by_id: d.created_by_id,
                created_at: or_default(d.created_at, 0),
                updated_by_id: d.updated_by_id,
                updated_at: or_default(d.updated_at, 0),
                device_id: d.device_id,
                config_schema_id: d.config_schema_id,
                config_type_id: d.config_type_id,
                attempts: or_default(d.attempts, 0),
                cooldown_ends_at: or_default(d.cooldown_ends_at, 0),
            }),
    {
        let created_at = match d.created_at {
            Some(t) => t,
            None => 0,
        };
        let updated_at = match d.updated_at {
            Some(t) => t,
            None => 0,
        };
        let attempts = match d.attempts {
            Some(a) => a,
            None => 0,
        };
        let cooldown_ends_at = match d.cooldown_ends_at {
            Some(t) => t,
            None => 0,
        };
        ConfigInstance {
            id: d.id,
            target_status: d.target_status,
            activity_status: d.activity_status,
            error_status: d.error_status,
            relative_filepath: d.relative_filepath,
            patch_id: d.patch_id,
            created_by_id: d.created_by_id,
            created_at,
            updated_by_id: d.updated_by_id,
            updated_at,
            device_id: d.device_id,
            config_schema_id: d.config_schema_id,
            config_type_id: d.config_type_id,
            attempts,
            cooldown_ends_at,
        }
    }
}

} // verus!
