//! Options of the MQTT connection. Spans are in milliseconds.

use vstd::prelude::*;

verus! {

/// The broker to connect to.
#[derive(Debug, Clone, PartialEq, Eq)]
pub struct ConnectAddress {
    pub broker: String,
    pub port: u16,
}

impl ConnectAddress {
    pub fn new(broker: String, port: u16) -> (r: Self)
        ensures
            r.broker == broker,
            r.port == port,
    {
        Self { broker, port }
    }
}

impl Default for ConnectAddress {
    /// The backend's broker, `mqtt.miruml.com`, on port 1883.
    fn default() -> (r: Self)
        ensures
            r.broker@ == "mqtt.miruml.com"@,
            r.port == 1883,
    {
        proof {
            reveal_strlit("mqtt.miruml.com");
        }
        Self { broker: "mqtt.miruml.com".to_string(), port: 1883 }
    }
}

/// How long each kind of request may take, in milliseconds.
#[derive(Debug, Clone, Copy, PartialEq, Eq, Structural)]
pub struct Timeouts {
    pub publish: u64,
    pub subscribe: u64,
    pub unsubscribe: u64,
    pub disconnect: u64,
}

impl Default for Timeouts {
    /// Three seconds for each.
    fn default() -> (r: Self)
        ensures
            r.publish == 3000,
            r.subscribe == 3000,
            r.unsubscribe == 3000,
            r.disconnect == 3000,
    {
        Self { publish: 3000, subscribe: 3000, unsubscribe: 3000, disconnect: 3000 }
    }
}

/// The options of a connection.
#[derive(Debug, Clone, PartialEq, Eq)]
pub struct Options {
    pub connect_address: ConnectAddress,
    pub username: String,
    pub password: String,
    pub client_id: String,
    /// The keep-alive interval, in milliseconds.
    pub keep_alive: u64,
    pub timeouts: Timeouts,
    /// How many requests may wait to be sent.
    pub capacity: usize,
}

impl Options {
    pub fn new(
        connect_address: ConnectAddress,
        username: String,
        password: String,
        client_id: String,
        keep_alive: u64,
        timeouts: Timeouts,
        capacity: usize,
    ) -> (r: Self)
        ensures
            r == (Options { connect_address, username, password, client_id, keep_alive, timeouts, capacity }),
    {
        Self { connect_address, username, password, client_id, keep_alive, timeouts, capacity }
    }
}

/// Builds connection options from the credentials, with defaults for the rest.
#[derive(Debug)]
pub struct OptionsBuilder {
    pub options: Options,
}

impl OptionsBuilder {
    /// The credentials with the default broker, a keep-alive of 60 seconds, the default
    /// timeouts and room for 64 waiting requests.
    pub fn new(username: String, password: String, client_id: String) -> (r: Self)
        ensures
            r.options.connect_address.broker@ == "mqtt.miruml.com"@,
            r.options.connect_address.port == 1883,
            r.options.username == username,
            r.options.password == password,
            r.options.client_id == client_id,
            r.options.keep_alive == 60000,
            r.options.timeouts == (Timeouts { publish: 3000, subscribe: 3000, unsubscribe: 3000, disconnect: 3000 }),
            r.options.capacity == 64,
    {
        Self {
            options: Options {
                connect_address: ConnectAddress::default(),
                username,
                password,
                client_id,
                keep_alive: 60000,
                timeouts: Timeouts::default(),
                capacity: 64,
            },
        }
    }

    pub fn with_connect_address(self, connect_address: ConnectAddress) -> (r: Self)
        ensures
            r.options == (Options { connect_address, ..self.options }),
    {
        let mut s = self;
        s.options.connect_address = connect_address;
        s
    }

    pub fn with_username(self, username: String) -> (r: Self)
        ensures
            r.options == (Options { username, ..self.options }),
    {
        let mut s = self;
        s.options.username = username;
        s
    }

    pub fn with_password(self, password: String) -> (r: Self)
        ensures
            r.options == (Options { password, ..self.options }),
    {
        let mut s = self;
        s.options.password = password;
        s
    }

    pub fn with_client_id(self, client_id: String) -> (r: Self)
        ensures
            r.options == (Options { client_id, ..self.options }),
    {
        let mut s = self;
        s.options.client_id = client_id;
        s
    }

    pub fn with_timeouts(self, timeouts: Timeouts) -> (r: Self)
        ensures
            r.options == (Options { timeouts, ..self.options }),
    {
        let mut s = self;
        s.options.timeouts = timeouts;
        s
    }

    pub fn build(self) -> (r: Options)
        ensures
            r == self.options,
    {
        self.options
    }
}

} // verus!
