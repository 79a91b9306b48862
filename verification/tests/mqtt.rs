use config_agent::errors::MiruError;
use config_agent::mqtt::client::{ConnectAddress, Options, OptionsBuilder, Timeouts};
use config_agent::mqtt::errors::{ConnectionErrorKind, MQTTError, PollErr, PublishErr, TimeoutErr};
use config_agent::mqtt::topics::{device_ping, device_pong, device_sync, parse_subscription, SubscriptionTopics};

#[test]
fn topics_of_a_device() {
    assert_eq!(device_sync("d1"), "cmd/devices/d1/sync");
    assert_eq!(device_ping("d1"), "v1/cmd/devices/d1/ping");
    assert_eq!(device_pong("d1"), "v1/resp/devices/d1/pong");
}

#[test]
fn parsing_a_topic_gives_the_topic_back() {
    assert_eq!(parse_subscription("d1", &device_sync("d1")), SubscriptionTopics::Sync);
    assert_eq!(parse_subscription("d1", &device_ping("d1")), SubscriptionTopics::Ping);
    assert_eq!(parse_subscription("d1", &device_pong("d1")), SubscriptionTopics::Unknown);
    assert_eq!(parse_subscription("d1", &device_sync("d2")), SubscriptionTopics::Unknown);
}

#[test]
fn builder_defaults_and_overrides() {
    let o = OptionsBuilder::new("u".to_string(), "p".to_string(), "c".to_string()).build();
    assert_eq!(o.connect_address.broker, "mqtt.miruml.com");
    assert_eq!(o.connect_address.port, 1883);
    assert_eq!(o.keep_alive, 60_000);
    assert_eq!(o.capacity, 64);
    assert_eq!(o.timeouts, Timeouts::default());
    let t = Timeouts { publish: 1, subscribe: 2, unsubscribe: 3, disconnect: 4 };
    let o = OptionsBuilder::new("u".to_string(), "p".to_string(), "c".to_string())
        .with_connect_address(ConnectAddress::new("localhost".to_string(), 1884))
        .with_username("u2".to_string())
        .with_password("p2".to_string())
        .with_client_id("c2".to_string())
        .with_timeouts(t)
        .build();
    assert_eq!(
        o,
        Options::new(ConnectAddress::new("localhost".to_string(), 1884), "u2".to_string(), "p2".to_string(), "c2".to_string(), 60_000, t, 64)
    );
}

#[test]
fn network_errors_of_mqtt() {
    let poll = |kind: ConnectionErrorKind| MQTTError::PollErr(Box::new(PollErr { kind, msg: String::new() }));
    assert!(poll(ConnectionErrorKind::NetworkTimeout).is_network_connection_error());
    assert!(poll(ConnectionErrorKind::FlushTimeout).is_network_connection_error());
    assert!(poll(ConnectionErrorKind::NotConnAck).is_network_connection_error());
    assert!(!poll(ConnectionErrorKind::ConnectionRefused).is_network_connection_error());
    assert!(!poll(ConnectionErrorKind::Other).is_network_connection_error());
    assert!(MQTTError::TimeoutErr(Box::new(TimeoutErr { msg: "Publish timeout".to_string() })).is_network_connection_error());
    assert!(MQTTError::PublishErr(Box::new(PublishErr { msg: String::new() })).is_network_connection_error());
    assert_eq!(MQTTError::PublishErr(Box::new(PublishErr { msg: String::new() })).http_status(), 500);
}
