//! The MQTT topics of a device.

use vstd::prelude::*;
use crate::strings::str_eq;

verus! {

/// The topic on which the backend asks the device to sync (without the version
/// prefix the later topics have).
pub open spec fn spec_device_sync(device_id: Seq<char>) -> Seq<char> {
    "cmd/devices/"@ + device_id + "/sync"@
}

/// The topic on which the backend pings the device.
pub open spec fn spec_device_ping(device_id: Seq<char>) -> Seq<char> {
    "v1/cmd/devices/"@ + device_id + "/ping"@
}

/// The topic on which the device answers a ping.
pub open spec fn spec_device_pong(device_id: Seq<char>) -> Seq<char> {
    "v1/resp/devices/"@ + device_id + "/pong"@
}

pub fn device_sync(device_id: &str) -> (r: String)
    ensures
        r@ == spec_device_sync(device_id@),
{
    let mut r = String::new();
    r.append("cmd/devices/");
    r.append(device_id);
    r.append("/sync");
    proof {
        reveal_strlit("cmd/devices/");
        reveal_strlit("/sync");
        assert(r@ =~= spec_device_sync(device_id@));
    }
    r
}

pub fn device_ping(device_id: &str) -> (r: String)
    ensures
        r@ == spec_device_ping(device_id@),
{
    let mut r = String::new();
    r.append("v1/cmd/devices/");
    r.append(device_id);
    r.append("/ping");
    proof {
        reveal_strlit("v1/cmd/devices/");
        reveal_strlit("/ping");
        assert(r@ =~= spec_device_ping(device_id@));
    }
    r
}

pub fn device_pong(device_id: &str) -> (r: String)
    ensures
        r@ == spec_device_pong(device_id@),
{
    let mut r = String::new();
    r.append("v1/resp/devices/");
    r.append(device_id);
    r.append("/pong");
    proof {
        reveal_strlit("v1/resp/devices/");
        reveal_strlit("/pong");
        assert(r@ =~= spec_device_pong(device_id@));
    }
    r
}

/// The topics a device subscribes to.
#[derive(Debug, Clone, Copy, PartialEq, Eq, Structural)]
pub enum SubscriptionTopics {
    Sync,
    Ping,
    Unknown,
}

pub open spec fn spec_parse_subscription(device_id: Seq<char>, topic: Seq<char>) -> SubscriptionTopics {
    if topic == spec_device_sync(device_id) {
        SubscriptionTopics::Sync
    } else if topic == spec_device_ping(device_id) {
        SubscriptionTopics::Ping
    } else {
        SubscriptionTopics::Unknown
    }
}

/// Which of the device's topics a message arrived on.
pub fn parse_subscription(device_id: &str, topic: &str) -> (r: SubscriptionTopics)
    ensures
        r == spec_parse_subscription(device_id@, topic@),
{
    if str_eq(topic, device_sync(device_id).as_str()) {
        SubscriptionTopics::Sync
    } else if str_eq(topic, device_ping(device_id).as_str()) {
        SubscriptionTopics::Ping
    } else {
        SubscriptionTopics::Unknown
    }
}

// =================================== LAWS ======================================== //
/// The sync and ping topics of a device differ, so that parsing a topic built for one
/// of them gives that one back.
pub proof fn lemma_parse_topics_round_trip(device_id: Seq<char>)
    ensures
        spec_parse_subscription(device_id, spec_device_sync(device_id)) == SubscriptionTopics::Sync,
        spec_parse_subscription(device_id, spec_device_ping(device_id)) == SubscriptionTopics::Ping,
        spec_parse_subscription(device_id, spec_device_pong(device_id)) == SubscriptionTopics::Unknown,
{
    reveal_strlit("cmd/devices/");
    reveal_strlit("v1/cmd/devices/");
    reveal_strlit("v1/resp/devices/");
    let sync = spec_device_sync(device_id);
    let ping = spec_device_ping(device_id);
    let pong = spec_device_pong(device_id);
    assert(sync[0] == 'c');
    assert(ping[0] == 'v');
    assert(pong[0] == 'v');
    assert(ping[3] == 'c');
    assert(pong[3] == 'r');
}

} // verus!
