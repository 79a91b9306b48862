//! The device the agent runs on, as the agent records it.

use vstd::prelude::*;
use crate::strings::str_eq;
use crate::time::valid_timestamp;

verus! {

#[derive(Debug, Clone, Copy, PartialEq, Eq, Structural, Hash)]
pub enum DeviceStatus {
    Online,
    Offline,
}

pub open spec fn spec_device_status_str(s: DeviceStatus) -> Seq<char> {
    match s {
        DeviceStatus::Online => "online"@,
        DeviceStatus::Offline => "offline"@,
    }
}

impl DeviceStatus {
    pub fn variants() -> (r: Vec<DeviceStatus>)
        ensures
            r@ == seq![DeviceStatus::Online, DeviceStatus::Offline],
    {
        let mut v: Vec<DeviceStatus> = Vec::new();
        v.push(DeviceStatus::Online);
        v.push(DeviceStatus::Offline);
        proof {
            assert(v@ =~= seq![DeviceStatus::Online, DeviceStatus::Offline]);
        }
        v
    }

    /// The status as stored and sent: `online` or `offline`.
    pub fn as_str(&self) -> (r: &'static str)
        ensures
            r@ == spec_device_status_str(*self),
    {
        match self {
            DeviceStatus::Online => {
                proof {
                    reveal_strlit("online");
                }
                "online"
            },
            DeviceStatus::Offline => {
                proof {
                    reveal_strlit("offline");
                }
                "offline"
            },
        }
    }

    /// The status named by `s`; a name that is not a status reads as the default,
    /// offline.
    pub fn from_str_or_default(s: &str) -> (r: DeviceStatus)
        ensures
            s@ == "online"@ ==> r == DeviceStatus::Online,
            s@ != "online"@ ==> r == DeviceStatus::Offline,
    {
        proof {
            reveal_strlit("online");
            reveal_strlit("offline");
        }
        if str_eq(s, "online") {
            DeviceStatus::Online
        } else if str_eq(s, "offline") {
            DeviceStatus::Offline
        } else {
            DeviceStatus::default()
        }
    }
}

impl Default for DeviceStatus {
    fn default() -> (r: Self)
        ensures
            r == DeviceStatus::Offline,
    {
        DeviceStatus::Offline
    }
}

/// The device. Instants are milliseconds since the epoch.
#[derive(Debug, Clone, PartialEq, Eq)]
pub struct Device {
    pub id: String,
    pub name: String,
    pub activated: bool,
    pub status: DeviceStatus,
    pub last_synced_at: i64,
    pub last_connected_at: i64,
    pub last_disconnected_at: i64,
}

/// The placeholder name and identifier of a device not yet known.
pub open spec fn placeholder() -> Seq<char> {
    "placeholder"@
}

impl Default for Device {
    fn default() -> (r: Self)
        ensures
            r.id@ == placeholder(),
            r.name@ == placeholder(),
            !r.activated,
            r.status == DeviceStatus::Offline,
            r.last_synced_at == 0,
            r.last_connected_at == 0,
            r.last_disconnected_at == 0,
    {
        proof {
            reveal_strlit("placeholder");
        }
        Self {
            id: "placeholder".to_string(),
            name: "placeholder".to_string(),
            activated: false,
            status: DeviceStatus::Offline,
            last_synced_at: 0,
            last_connected_at: 0,
            last_disconnected_at: 0,
        }
    }
}

/// A stored device as read from its JSON form, before the defaults of the fields it
/// may lack are filled in.
#[derive(Debug)]
pub struct DeserializedDevice {
    pub device_id: String,
    pub name: Option<String>,
    pub activated: Option<bool>,
    pub status: Option<DeviceStatus>,
    pub last_synced_at: Option<i64>,
    pub last_connected_at: Option<i64>,
    pub last_disconnected_at: Option<i64>,
}

impl Device {
    /// The stored device read from JSON: fields it lacks take the defaults of
    /// `Device::default` (a placeholder name, not activated, offline, the epoch).
    pub fn from_deserialized(d: DeserializedDevice) -> (r: Device)
        ensures
            r.id == d.device_id,
            r.name@ == (match d.name {
                Some(n) => n@,
                None => placeholder(),
            }),
            r.activated == (match d.activated {
                Some(a) => a,
                None => false,
            }),
            r.status == (match d.status {
                Some(s) => s,
                None => DeviceStatus::Offline,
            }),
            r.last_synced_at == (match d.last_synced_at {
                Some(t) => t,
                None => 0,
            }),
            r.last_connected_at == (match d.last_connected_at {
                Some(t) => t,
                None => 0,
            }),
            r.last_disconnected_at == (match d.last_disconnected_at {
                Some(t) => t,
                None => 0,
            }),
    {
        let default = Device::default();
        Device {
            id: d.device_id,
            name: match d.name {
                Some(n) => n,
                None => default.name,
            },
            activated: match d.activated {
                Some(a) => a,
                None => default.activated,
            },
            status: match d.status {
                Some(s) => s,
                None => default.status,
            },
            last_synced_at: match d.last_synced_at {
                Some(t) => t,
                None => default.last_synced_at,
            },
            last_connected_at: match d.last_connected_at {
                Some(t) => t,
                None => default.last_connected_at,
            },
            last_disconnected_at: match d.last_disconnected_at {
                Some(t) => t,
                None => default.last_disconnected_at,
            },
        }
    }

    /// Applies the updates: each field that has an update takes it, the others stay.
    pub fn merge(&mut self, updates: Updates)
        ensures
            *final(self) == spec_merge(*old(self), updates),
    {
        if let Some(id) = updates.id {
            self.id = id;
        }
        if let Some(name) = updates.name {
            self.name = name;
        }
        if let Some(activated) = updates.activated {
            self.activated = activated;
        }
        if let Some(status) = updates.status {
            self.status = status;
        }
        if let Some(last_synced_at) = updates.last_synced_at {
            self.last_synced_at = last_synced_at;
        }
        if let Some(last_connected_at) = updates.last_connected_at {
            self.last_connected_at = last_connected_at;
        }
        if let Some(last_disconnected_at) = updates.last_disconnected_at {
            self.last_disconnected_at = last_disconnected_at;
        }
    }
}

/// Changes to a device: a field with a value replaces the device's.
#[derive(Debug, Clone, PartialEq, Eq)]
pub struct Updates {
    pub id: Option<String>,
    pub name: Option<String>,
    pub activated: Option<bool>,
    pub status: Option<DeviceStatus>,
    pub last_synced_at: Option<i64>,
    pub last_connected_at: Option<i64>,
    pub last_disconnected_at: Option<i64>,
}

/// The device with the updates applied.
pub open spec fn spec_merge(d: Device, u: Updates) -> Device {
    Device {
        id: match u.id {
            Some(x) => x,
            None => d.id,
        },
        name: match u.name {
            Some(x) => x,
            None => d.name,
        },
        activated: match u.activated {
            Some(x) => x,
            None => d.activated,
        },
        status: match u.status {
            Some(x) => x,
            None => d.status,
        },
        last_synced_at: match u.last_synced_at {
            Some(x) => x,
            None => d.last_synced_at,
        },
        last_connected_at: match u.last_connected_at {
            Some(x) => x,
            None => d.last_connected_at,
        },
        last_disconnected_at: match u.last_disconnected_at {
            Some(x) => x,
            None => d.last_disconnected_at,
        },
    }
}

/// The updates that change nothing.
pub open spec fn spec_no_updates() -> Updates {
    Updates {
        id: None,
        name: None,
        activated: None,
        status: None,
        last_synced_at: None,
        last_connected_at: None,
        last_disconnected_at: None,
    }
}

impl Updates {
    pub fn empty() -> (r: Self)
        ensures
            r == spec_no_updates(),
    {
        Self {
            id: None,
            name: None,
            activated: None,
            status: None,
            last_synced_at: None,
            last_connected_at: None,
            last_disconnected_at: None,
        }
    }

    /// The device went offline at `now`.
    pub fn disconnected(now: i64) -> (r: Self)
        ensures
            r == (Updates { status: Some(DeviceStatus::Offline), last_disconnected_at: Some(now), ..spec_no_updates() }),
    {
        Self { status: Some(DeviceStatus::Offline), last_disconnected_at: Some(now), ..Self::empty() }
    }


    /// The device came online at `now`.
    pub fn connected(now: i64) -> (r: Self)
        ensures
            r == (Updates { status: Some(DeviceStatus::Online), last_connected_at: Some(now), ..spec_no_updates() }),
    {
        Self { status: Some(DeviceStatus::Online), last_connected_at: Some(now), ..Self::empty() }
    }

}

// =================================== LAWS ======================================== //
/// A device status reads back from its wire name.
pub proof fn lemma_device_status_round_trip(s: DeviceStatus)
    ensures
        (spec_device_status_str(s) == "online"@) <==> (s == DeviceStatus::Online),
{
    reveal_strlit("online");
    reveal_strlit("offline");
    assert("online"@[1] != "offline"@[1]);
}

/// Merging no updates leaves the device as it was.
pub proof fn lemma_merge_empty(d: Device)
    ensures
        spec_merge(d, spec_no_updates()) == d,
{
}

/// Merging the same updates twice is merging them once.
pub proof fn lemma_merge_idempotent(d: Device, u: Updates)
    ensures
        spec_merge(spec_merge(d, u), u) == spec_merge(d, u),
{
}

/// A merged device takes every update given and keeps every field not updated.
pub proof fn lemma_merge_takes_updates(d: Device, u: Updates)
    ensures
        u.status matches Some(s) ==> spec_merge(d, u).status == s,
        u.status is None ==> spec_merge(d, u).status == d.status,
        u.last_connected_at matches Some(t) ==> spec_merge(d, u).last_connected_at == t,
        u.last_connected_at is None ==> spec_merge(d, u).last_connected_at == d.last_connected_at,
        u.last_disconnected_at matches Some(t) ==> spec_merge(d, u).last_disconnected_at == t,
        u.last_disconnected_at is None ==> spec_merge(d, u).last_disconnected_at == d.last_disconnected_at,
{
}

} // verus!
