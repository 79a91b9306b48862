//! Error classification shared by every error type of the agent.

use vstd::prelude::*;

verus! {

/// Machine-readable error codes reported to clients.
#[derive(Clone, Copy, Debug, PartialEq, Eq, Structural, Hash)]
pub enum Code {
    InternalServerError,
    ResourceNotFound,
}

impl Code {
    /// The wire form of the code.
    pub fn as_str(&self) -> (r: &'static str)
        ensures
            r@ == spec_code_str(*self),
    {
        match self {
            Code::InternalServerError => "internal_server_error",
            Code::ResourceNotFound => "resource_not_found",
        }
    }
}

pub open spec fn spec_code_str(c: Code) -> Seq<char> {
    match c {
        Code::InternalServerError => "internal_server_error"@,
        Code::ResourceNotFound => "resource_not_found"@,
    }
}

/// HTTP status 500.
pub const INTERNAL_SERVER_ERROR: u16 = 500u16;

/// HTTP status 404.
pub const NOT_FOUND: u16 = 404u16;

/// What every error of the agent reports about itself.
pub trait MiruError {
    spec fn spec_code(&self) -> Code;

    spec fn spec_http_status(&self) -> u16;

    spec fn spec_is_network_connection_error(&self) -> bool;

    fn code(&self) -> (r: Code)
        ensures
            r == self.spec_code(),
    ;

    fn http_status(&self) -> (r: u16)
        ensures
            r == self.spec_http_status(),
    ;

    /// Whether the error comes from a failed network connection (and so should not
    /// count as a failed attempt).
    fn is_network_connection_error(&self) -> (r: bool)
        ensures
            r == self.spec_is_network_connection_error(),
    ;
}

/// An error raised by work the library leaves to its caller (the file system, the
/// HTTP client, authentication, storage), with the classification its source reported.
#[derive(Debug)]
pub struct ExternalErr {
    pub msg: String,
    pub code: Code,
    pub http_status: u16,
    pub network: bool,
}

impl MiruError for ExternalErr {
    open spec fn spec_code(&self) -> Code {
        self.code
    }

    open spec fn spec_http_status(&self) -> u16 {
        self.http_status
    }

    open spec fn spec_is_network_connection_error(&self) -> bool {
        self.network
    }

    fn code(&self) -> (r: Code) {
        self.code
    }

    fn http_status(&self) -> (r: u16) {
        self.http_status
    }

    fn is_network_connection_error(&self) -> (r: bool) {
        self.network
    }
}

} // verus!
