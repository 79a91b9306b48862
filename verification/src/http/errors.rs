//! Errors of backend requests.

use vstd::prelude::*;
use crate::errors::{Code, ExternalErr, MiruError, NOT_FOUND};

verus! {

/// A search for one config schema found several.
#[derive(Debug)]
pub struct TooManyConfigSchemasErr {
    pub expected_count: usize,
    pub found_config_schema_ids: Vec<String>,
    pub query_params: String,
}

/// A search for one config schema found none.
#[derive(Debug)]
pub struct ConfigSchemaNotFoundErr {
    pub query_params: String,
}

#[derive(Debug)]
pub enum HTTPErr {
    TooManyConfigSchemas(TooManyConfigSchemasErr),
    ConfigSchemaNotFound(ConfigSchemaNotFoundErr),
    /// The request itself failed, as the HTTP client reported.
    RequestErr(ExternalErr),
}

impl MiruError for TooManyConfigSchemasErr {
    open spec fn spec_code(&self) -> Code {
        Code::ResourceNotFound
    }

    open spec fn spec_http_status(&self) -> u16 {
        NOT_FOUND
    }

    open spec fn spec_is_network_connection_error(&self) -> bool {
        false
    }

    fn code(&self) -> (r: Code) {
        Code::ResourceNotFound
    }

    fn http_status(&self) -> (r: u16) {
        NOT_FOUND
    }

    fn is_network_connection_error(&self) -> (r: bool) {
        false
    }
}

impl MiruError for ConfigSchemaNotFoundErr {
    open spec fn spec_code(&self) -> Code {
        Code::ResourceNotFound
    }

    open spec fn spec_http_status(&self) -> u16 {
        NOT_FOUND
    }

    open spec fn spec_is_network_connection_error(&self) -> bool {
        false
    }

    fn code(&self) -> (r: Code) {
        Code::ResourceNotFound
    }

    fn http_status(&self) -> (r: u16) {
        NOT_FOUND
    }

    fn is_network_connection_error(&self) -> (r: bool) {
        false
    }
}

impl MiruError for HTTPErr {
    open spec fn spec_code(&self) -> Code {
        match self {
            HTTPErr::TooManyConfigSchemas(e) => e.spec_code(),
            HTTPErr::ConfigSchemaNotFound(e) => e.spec_code(),
            HTTPErr::RequestErr(e) => e.spec_code(),
        }
    }

    open spec fn spec_http_status(&self) -> u16 {
        match self {
            HTTPErr::TooManyConfigSchemas(e) => e.spec_http_status(),
            HTTPErr::ConfigSchemaNotFound(e) => e.spec_http_status(),
            HTTPErr::RequestErr(e) => e.spec_http_status(),
        }
    }

    open spec fn spec_is_network_connection_error(&self) -> bool {
        match self {
            HTTPErr::TooManyConfigSchemas(e) => e.spec_is_network_connection_error(),
            HTTPErr::ConfigSchemaNotFound(e) => e.spec_is_network_connection_error(),
            HTTPErr::RequestErr(e) => e.spec_is_network_connection_error(),
        }
    }

    fn code(&self) -> (r: Code) {
        match self {
            HTTPErr::TooManyConfigSchemas(e) => e.code(),
            HTTPErr::ConfigSchemaNotFound(e) => e.code(),
            HTTPErr::RequestErr(e) => e.code(),
        }
    }

    fn http_status(&self) -> (r: u16) {
        match self {
            HTTPErr::TooManyConfigSchemas(e) => e.http_status(),
            HTTPErr::ConfigSchemaNotFound(e) => e.http_status(),
            HTTPErr::RequestErr(e) => e.http_status(),
        }
    }

    fn is_network_connection_error(&self) -> (r: bool) {
        match self {
            HTTPErr::TooManyConfigSchemas(e) => e.is_network_connection_error(),
            HTTPErr::ConfigSchemaNotFound(e) => e.is_network_connection_error(),
            HTTPErr::RequestErr(e) => e.is_network_connection_error(),
        }
    }
}

} // verus!
