//! Errors of the MQTT connection.

use vstd::prelude::*;
use crate::errors::{Code, MiruError, INTERNAL_SERVER_ERROR};

verus! {

/// The kind of a failure of the connection's event loop, as `rumqttc` reports it.
#[derive(Debug, Clone, Copy, PartialEq, Eq, Structural)]
pub enum ConnectionErrorKind {
    NetworkTimeout,
    FlushTimeout,
    NotConnAck,
    ConnectionRefused,
    Other,
}

/// Polling the event loop failed.
#[derive(Debug)]
pub struct PollErr {
    pub kind: ConnectionErrorKind,
    pub msg: String,
}

/// A request took longer than its timeout.
#[derive(Debug)]
pub struct TimeoutErr {
    pub msg: String,
}

/// The client refused a request.
#[derive(Debug)]
pub struct PublishErr {
    pub msg: String,
}

#[derive(Debug)]
pub enum MQTTError {
    TimeoutErr(Box<TimeoutErr>),
    PollErr(Box<PollErr>),
    PublishErr(Box<PublishErr>),
}

/// Of the failures of the event loop, only a network timeout, a flush timeout and a
/// missing connection acknowledgement come from the network.
impl MiruError for PollErr {
    open spec fn spec_code(&self) -> Code {
        Code::InternalServerError
    }

    open spec fn spec_http_status(&self) -> u16 {
        INTERNAL_SERVER_ERROR
    }

    open spec fn spec_is_network_connection_error(&self) -> bool {
        self.kind is NetworkTimeout || self.kind is FlushTimeout || self.kind is NotConnAck
    }

    fn code(&self) -> (r: Code) {
        Code::InternalServerError
    }

    fn http_status(&self) -> (r: u16) {
        INTERNAL_SERVER_ERROR
    }

    fn is_network_connection_error(&self) -> (r: bool) {
        match self.kind {
            // network connection errors
            ConnectionErrorKind::NetworkTimeout => true,
            ConnectionErrorKind::FlushTimeout => true,
            ConnectionErrorKind::NotConnAck => true,
            // non-network connection errors
            ConnectionErrorKind::ConnectionRefused => false,
            ConnectionErrorKind::Other => false,
        }
    }
}

impl MiruError for TimeoutErr {
    open spec fn spec_code(&self) -> Code {
        Code::InternalServerError
    }

    open spec fn spec_http_status(&self) -> u16 {
        INTERNAL_SERVER_ERROR
    }

    open spec fn spec_is_network_connection_error(&self) -> bool {
        true
    }

    fn code(&self) -> (r: Code) {
        Code::InternalServerError
    }

    fn http_status(&self) -> (r: u16) {
        INTERNAL_SERVER_ERROR
    }

    fn is_network_connection_error(&self) -> (r: bool) {
        true
    }
}

impl MiruError for PublishErr {
    open spec fn spec_code(&self) -> Code {
        Code::InternalServerError
    }

    open spec fn spec_http_status(&self) -> u16 {
        INTERNAL_SERVER_ERROR
    }

    open spec fn spec_is_network_connection_error(&self) -> bool {
        true
    }

    fn code(&self) -> (r: Code) {
        Code::InternalServerError
    }

    fn http_status(&self) -> (r: u16) {
        INTERNAL_SERVER_ERROR
    }

    fn is_network_connection_error(&self) -> (r: bool) {
        true
    }
}

impl MiruError for MQTTError {
    open spec fn spec_code(&self) -> Code {
        match self {
            MQTTError::TimeoutErr(e) => e.spec_code(),
            MQTTError::PollErr(e) => e.spec_code(),
            MQTTError::PublishErr(e) => e.spec_code(),
        }
    }

    open spec fn spec_http_status(&self) -> u16 {
        match self {
            MQTTError::TimeoutErr(e) => e.spec_http_status(),
            MQTTError::PollErr(e) => e.spec_http_status(),
            MQTTError::PublishErr(e) => e.spec_http_status(),
        }
    }

    open spec fn spec_is_network_connection_error(&self) -> bool {
        match self {
            MQTTError::TimeoutErr(e) => e.spec_is_network_connection_error(),
            MQTTError::PollErr(e) => e.spec_is_network_connection_error(),
            MQTTError::PublishErr(e) => e.spec_is_network_connection_error(),
        }
    }

    fn code(&self) -> (r: Code) {
        match self {
            MQTTError::TimeoutErr(e) => e.code(),
            MQTTError::PollErr(e) => e.code(),
            MQTTError::PublishErr(e) => e.code(),
        }
    }

    fn http_status(&self) -> (r: u16) {
        match self {
            MQTTError::TimeoutErr(e) => e.http_status(),
            MQTTError::PollErr(e) => e.http_status(),
            MQTTError::PublishErr(e) => e.http_status(),
        }
    }

    fn is_network_connection_error(&self) -> (r: bool) {
        match self {
            MQTTError::TimeoutErr(e) => e.is_network_connection_error(),
            MQTTError::PollErr(e) => e.is_network_connection_error(),
            MQTTError::PublishErr(e) => e.is_network_connection_error(),
        }
    }
}

} // verus!
