//! Errors of the caches.

use vstd::prelude::*;
use crate::errors::{Code, ExternalErr, MiruError, INTERNAL_SERVER_ERROR};

verus! {

/// No entry has the key, or no entry passes the filter.
#[derive(Debug)]
pub struct CacheElementNotFound {
    pub msg: String,
}

/// The cache could not read or write its file.
#[derive(Debug)]
pub struct CacheFileSysErr {
    pub source: ExternalErr,
}

/// More entries passed a filter than were expected.
#[derive(Debug)]
pub struct FoundTooManyCacheElements {
    pub expected_count: usize,
    pub actual_count: usize,
    pub filter_name: String,
}

/// A write without overwrite met an existing entry.
#[derive(Debug)]
pub struct CannotOverwriteCacheElement {
    pub key: String,
}

/// A message to the cache's worker could not be sent.
#[derive(Debug)]
pub struct SendActorMessageErr {
    pub msg: String,
}

/// The cache's worker did not answer.
#[derive(Debug)]
pub struct ReceiveActorMessageErr {
    pub msg: String,
}

#[derive(Debug)]
pub enum CacheErr {
    CacheElementNotFound(CacheElementNotFound),
    CannotOverwriteCacheElement(CannotOverwriteCacheElement),
    FileSysErr(CacheFileSysErr),
    FoundTooManyCacheElements(FoundTooManyCacheElements),
    SendActorMessageErr(SendActorMessageErr),
    ReceiveActorMessageErr(ReceiveActorMessageErr),
}

impl MiruError for CacheElementNotFound {
    open spec fn spec_code(&self) -> Code {
        Code::InternalServerError
    }

    open spec fn spec_http_status(&self) -> u16 {
        INTERNAL_SERVER_ERROR
    }

    open spec fn spec_is_network_connection_error(&self) -> bool {
        false
    }

    fn code(&self) -> (r: Code) {
        Code::InternalServerError
    }

    fn http_status(&self) -> (r: u16) {
        INTERNAL_SERVER_ERROR
    }

    fn is_network_connection_error(&self) -> (r: bool) {
        false
    }
}

impl MiruError for CacheFileSysErr {
    open spec fn spec_code(&self) -> Code {
        self.source.spec_code()
    }

    open spec fn spec_http_status(&self) -> u16 {
        self.source.spec_http_status()
    }

    open spec fn spec_is_network_connection_error(&self) -> bool {
        self.source.spec_is_network_connection_error()
    }

    fn code(&self) -> (r: Code) {
        self.source.code()
    }

    fn http_status(&self) -> (r: u16) {
        self.source.http_status()
    }

    fn is_network_connection_error(&self) -> (r: bool) {
        self.source.is_network_connection_error()
    }
}

impl MiruError for FoundTooManyCacheElements {
    open spec fn spec_code(&self) -> Code {
        Code::InternalServerError
    }

    open spec fn spec_http_status(&self) -> u16 {
        INTERNAL_SERVER_ERROR
    }

    open spec fn spec_is_network_connection_error(&self) -> bool {
        false
    }

    fn code(&self) -> (r: Code) {
        Code::InternalServerError
    }

    fn http_status(&self) -> (r: u16) {
        INTERNAL_SERVER_ERROR
    }

    fn is_network_connection_error(&self) -> (r: bool) {
        false
    }
}

impl MiruError for CannotOverwriteCacheElement {
    open spec fn spec_code(&self) -> Code {
        Code::InternalServerError
    }

    open spec fn spec_http_status(&self) -> u16 {
        INTERNAL_SERVER_ERROR
    }

    open spec fn spec_is_network_connection_error(&self) -> bool {
        false
    }

    fn code(&self) -> (r: Code) {
        Code::InternalServerError
    }

    fn http_status(&self) -> (r: u16) {
        INTERNAL_SERVER_ERROR
    }

    fn is_network_connection_error(&self) -> (r: bool) {
        false
    }
}

impl MiruError for SendActorMessageErr {
    open spec fn spec_code(&self) -> Code {
        Code::InternalServerError
    }

    open spec fn spec_http_status(&self) -> u16 {
        INTERNAL_SERVER_ERROR
    }

    open spec fn spec_is_network_connection_error(&self) -> bool {
        false
    }

    fn code(&self) -> (r: Code) {
        Code::InternalServerError
    }

    fn http_status(&self) -> (r: u16) {
        INTERNAL_SERVER_ERROR
    }

    fn is_network_connection_error(&self) -> (r: bool) {
        false
    }
}

impl MiruError for ReceiveActorMessageErr {
    open spec fn spec_code(&self) -> Code {
        Code::InternalServerError
    }

    open spec fn spec_http_status(&self) -> u16 {
        INTERNAL_SERVER_ERROR
    }

    open spec fn spec_is_network_connection_error(&self) -> bool {
        false
    }

    fn code(&self) -> (r: Code) {
        Code::InternalServerError
    }

    fn http_status(&self) -> (r: u16) {
        INTERNAL_SERVER_ERROR
    }

    fn is_network_connection_error(&self) -> (r: bool) {
        false
    }
}

impl MiruError for CacheErr {
    open spec fn spec_code(&self) -> Code {
        match self {
            CacheErr::CacheElementNotFound(e) => e.spec_code(),
            CacheErr::CannotOverwriteCacheElement(e) => e.spec_code(),
            CacheErr::FileSysErr(e) => e.spec_code(),
            CacheErr::FoundTooManyCacheElements(e) => e.spec_code(),
            CacheErr::SendActorMessageErr(e) => e.spec_code(),
            CacheErr::ReceiveActorMessageErr(e) => e.spec_code(),
        }
    }

    open spec fn spec_http_status(&self) -> u16 {
        match self {
            CacheErr::CacheElementNotFound(e) => e.spec_http_status(),
            CacheErr::CannotOverwriteCacheElement(e) => e.spec_http_status(),
            CacheErr::FileSysErr(e) => e.spec_http_status(),
            CacheErr::FoundTooManyCacheElements(e) => e.spec_http_status(),
            CacheErr::SendActorMessageErr(e) => e.spec_http_status(),
            CacheErr::ReceiveActorMessageErr(e) => e.spec_http_status(),
        }
    }

    open spec fn spec_is_network_connection_error(&self) -> bool {
        match self {
            CacheErr::CacheElementNotFound(e) => e.spec_is_network_connection_error(),
            CacheErr::CannotOverwriteCacheElement(e) => e.spec_is_network_connection_error(),
            CacheErr::FileSysErr(e) => e.spec_is_network_connection_error(),
            CacheErr::FoundTooManyCacheElements(e) => e.spec_is_network_connection_error(),
            CacheErr::SendActorMessageErr(e) => e.spec_is_network_connection_error(),
            CacheErr::ReceiveActorMessageErr(e) => e.spec_is_network_connection_error(),
        }
    }

    fn code(&self) -> (r: Code) {
        match self {
            CacheErr::CacheElementNotFound(e) => e.code(),
            CacheErr::CannotOverwriteCacheElement(e) => e.code(),
            CacheErr::FileSysErr(e) => e.code(),
            CacheErr::FoundTooManyCacheElements(e) => e.code(),
            CacheErr::SendActorMessageErr(e) => e.code(),
            CacheErr::ReceiveActorMessageErr(e) => e.code(),
        }
    }

    fn http_status(&self) -> (r: u16) {
        match self {
            CacheErr::CacheElementNotFound(e) => e.http_status(),
            CacheErr::CannotOverwriteCacheElement(e) => e.http_status(),
            CacheErr::FileSysErr(e) => e.http_status(),
            CacheErr::FoundTooManyCacheElements(e) => e.http_status(),
            CacheErr::SendActorMessageErr(e) => e.http_status(),
            CacheErr::ReceiveActorMessageErr(e) => e.http_status(),
        }
    }

    fn is_network_connection_error(&self) -> (r: bool) {
        match self {
            CacheErr::CacheElementNotFound(e) => e.is_network_connection_error(),
            CacheErr::CannotOverwriteCacheElement(e) => e.is_network_connection_error(),
            CacheErr::FileSysErr(e) => e.is_network_connection_error(),
            CacheErr::FoundTooManyCacheElements(e) => e.is_network_connection_error(),
            CacheErr::SendActorMessageErr(e) => e.is_network_connection_error(),
            CacheErr::ReceiveActorMessageErr(e) => e.is_network_connection_error(),
        }
    }
}

} // verus!
