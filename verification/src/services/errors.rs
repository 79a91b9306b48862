//! Errors of the agent's services.

use vstd::prelude::*;
use crate::cache::errors::CacheErr;
use crate::errors::{Code, ExternalErr, MiruError, NOT_FOUND};
use crate::http::errors::HTTPErr;
use crate::sync::errors::SyncErr;

verus! {

/// No config schema has the config type slug and the digest (or the backend could not
/// be reached to find one).
#[derive(Debug)]
pub struct ConfigSchemaNotFound {
    pub config_type_slug: String,
    pub config_schema_digest: String,
    pub network_connection_error: bool,
}

/// Several config schemas have the config type slug and the digest.
#[derive(Debug)]
pub struct TooManyConfigSchemas {
    pub config_schema_ids: Vec<String>,
    pub config_type_slug: String,
    pub config_schema_digest: String,
}

/// No latest config instance is known for the config type slug and the digest.
#[derive(Debug)]
pub struct LatestConfigInstanceNotFound {
    pub config_type_slug: String,
    pub config_schema_digest: String,
}

/// No deployed config instance is known for the schema (or the backend could not be
/// reached to learn of one).
#[derive(Debug)]
pub struct DeployedConfigInstanceNotFound {
    pub config_schema_id: String,
    pub config_type_slug: String,
    pub config_schema_digest: String,
    pub network_connection_error: bool,
}

/// A record could not be turned into a model.
#[derive(Debug)]
pub struct ServiceModelsErr {
    pub source: ExternalErr,
}

/// The agent's storage could not be used.
#[derive(Debug)]
pub struct ServiceStorageErr {
    pub source: ExternalErr,
}

/// A request to the backend failed.
#[derive(Debug)]
pub struct ServiceHTTPErr {
    pub source: HTTPErr,
}

/// A cached record could not be read or found.
#[derive(Debug)]
pub struct ServiceCrudErr {
    pub source: CacheErr,
}

/// Syncing with the backend failed.
#[derive(Debug)]
pub struct ServiceSyncErr {
    pub source: SyncErr,
}

#[derive(Debug)]
pub enum ServiceErr {
    // service errors
    ConfigSchemaNotFound(ConfigSchemaNotFound),
    TooManyConfigSchemas(TooManyConfigSchemas),
    LatestConfigInstanceNotFound(LatestConfigInstanceNotFound),
    DeployedConfigInstanceNotFound(DeployedConfigInstanceNotFound),
    // internal crate errors
    ModelsErr(ServiceModelsErr),
    StorageErr(ServiceStorageErr),
    HTTPErr(ServiceHTTPErr),
    CrudErr(ServiceCrudErr),
    SyncErr(ServiceSyncErr),
}

impl MiruError for ConfigSchemaNotFound {
    open spec fn spec_code(&self) -> Code {
        Code::ResourceNotFound
    }

    open spec fn spec_http_status(&self) -> u16 {
        NOT_FOUND
    }

    open spec fn spec_is_network_connection_error(&self) -> bool {
        self.network_connection_error
    }

    fn code(&self) -> (r: Code) {
        Code::ResourceNotFound
    }

    fn http_status(&self) -> (r: u16) {
        NOT_FOUND
    }

    fn is_network_connection_error(&self) -> (r: bool) {
        self.network_connection_error
    }
}

impl MiruError for TooManyConfigSchemas {
    open spec fn spec_code(&self) -> Code {
        Code::ResourceNotFound
    }

    open spec fn spec_http_status(&self) -> u16 {
        NOT_FOUND
    }

    open spec fn spec_is_network_connection_error(&self) -> bool {
        false
    }

    fn code(&self) -> (r: Code) {
        Code::ResourceNotFound
    }

    fn http_status(&self) -> (r: u16) {
        NOT_FOUND
    }

    fn is_network_connection_error(&self) -> (r: bool) {
        false
    }
}

impl MiruError for LatestConfigInstanceNotFound {
    open spec fn spec_code(&self) -> Code {
        Code::ResourceNotFound
    }

    open spec fn spec_http_status(&self) -> u16 {
        NOT_FOUND
    }

    open spec fn spec_is_network_connection_error(&self) -> bool {
        false
    }

    fn code(&self) -> (r: Code) {
        Code::ResourceNotFound
    }

    fn http_status(&self) -> (r: u16) {
        NOT_FOUND
    }

    fn is_network_connection_error(&self) -> (r: bool) {
        false
    }
}

impl MiruError for DeployedConfigInstanceNotFound {
    open spec fn spec_code(&self) -> Code {
        Code::ResourceNotFound
    }

    open spec fn spec_http_status(&self) -> u16 {
        NOT_FOUND
    }

    open spec fn spec_is_network_connection_error(&self) -> bool {
        self.network_connection_error
    }

    fn code(&self) -> (r: Code) {
        Code::ResourceNotFound
    }

    fn http_status(&self) -> (r: u16) {
        NOT_FOUND
    }

    fn is_network_connection_error(&self) -> (r: bool) {
        self.network_connection_error
    }
}

impl MiruError for ServiceModelsErr {
    open spec fn spec_code(&self) -> Code {
        self.source.spec_code()
    }

    open spec fn spec_http_status(&self) -> u16 {
        self.source.spec_http_status()
    }

    open spec fn spec_is_network_connection_error(&self) -> bool {
        self.source.spec_is_network_connection_error()
    }

    fn code(&self) -> (r: Code) {
        self.source.code()
    }

    fn http_status(&self) -> (r: u16) {
        self.source.http_status()
    }

    fn is_network_connection_error(&self) -> (r: bool) {
        self.source.is_network_connection_error()
    }
}

impl MiruError for ServiceStorageErr {
    open spec fn spec_code(&self) -> Code {
        self.source.spec_code()
    }

    open spec fn spec_http_status(&self) -> u16 {
        self.source.spec_http_status()
    }

    open spec fn spec_is_network_connection_error(&self) -> bool {
        self.source.spec_is_network_connection_error()
    }

    fn code(&self) -> (r: Code) {
        self.source.code()
    }

    fn http_status(&self) -> (r: u16) {
        self.source.http_status()
    }

    fn is_network_connection_error(&self) -> (r: bool) {
        self.source.is_network_connection_error()
    }
}

impl MiruError for ServiceHTTPErr {
    open spec fn spec_code(&self) -> Code {
        self.source.spec_code()
    }

    open spec fn spec_http_status(&self) -> u16 {
        self.source.spec_http_status()
    }

    open spec fn spec_is_network_connection_error(&self) -> bool {
        self.source.spec_is_network_connection_error()
    }

    fn code(&self) -> (r: Code) {
        self.source.code()
    }

    fn http_status(&self) -> (r: u16) {
        self.source.http_status()
    }

    fn is_network_connection_error(&self) -> (r: bool) {
        self.source.is_network_connection_error()
    }
}

impl MiruError for ServiceCrudErr {
    open spec fn spec_code(&self) -> Code {
        self.source.spec_code()
    }

    open spec fn spec_http_status(&self) -> u16 {
        self.source.spec_http_status()
    }

    open spec fn spec_is_network_connection_error(&self) -> bool {
        self.source.spec_is_network_connection_error()
    }

    fn code(&self) -> (r: Code) {
        self.source.code()
    }

    fn http_status(&self) -> (r: u16) {
        self.source.http_status()
    }

    fn is_network_connection_error(&self) -> (r: bool) {
        self.source.is_network_connection_error()
    }
}

impl MiruError for ServiceSyncErr {
    open spec fn spec_code(&self) -> Code {
        self.source.spec_code()
    }

    open spec fn spec_http_status(&self) -> u16 {
        self.source.spec_http_status()
    }

    open spec fn spec_is_network_connection_error(&self) -> bool {
        self.source.spec_is_network_connection_error()
    }

    fn code(&self) -> (r: Code) {
        self.source.code()
    }

    fn http_status(&self) -> (r: u16) {
        self.source.http_status()
    }

    fn is_network_connection_error(&self) -> (r: bool) {
        self.source.is_network_connection_error()
    }
}

impl MiruError for ServiceErr {
    open spec fn spec_code(&self) -> Code {
        match self {
            ServiceErr::ConfigSchemaNotFound(e) => e.spec_code(),
            ServiceErr::TooManyConfigSchemas(e) => e.spec_code(),
            ServiceErr::LatestConfigInstanceNotFound(e) => e.spec_code(),
            ServiceErr::DeployedConfigInstanceNotFound(e) => e.spec_code(),
            ServiceErr::ModelsErr(e) => e.spec_code(),
            ServiceErr::StorageErr(e) => e.spec_code(),
            ServiceErr::HTTPErr(e) => e.spec_code(),
            ServiceErr::CrudErr(e) => e.spec_code(),
            ServiceErr::SyncErr(e) => e.spec_code(),
        }
    }

    open spec fn spec_http_status(&self) -> u16 {
        match self {
            ServiceErr::ConfigSchemaNotFound(e) => e.spec_http_status(),
            ServiceErr::TooManyConfigSchemas(e) => e.spec_http_status(),
            ServiceErr::LatestConfigInstanceNotFound(e) => e.spec_http_status(),
            ServiceErr::DeployedConfigInstanceNotFound(e) => e.spec_http_status(),
            ServiceErr::ModelsErr(e) => e.spec_http_status(),
            ServiceErr::StorageErr(e) => e.spec_http_status(),
            ServiceErr::HTTPErr(e) => e.spec_http_status(),
            ServiceErr::CrudErr(e) => e.spec_http_status(),
            ServiceErr::SyncErr(e) => e.spec_http_status(),
        }
    }

    open spec fn spec_is_network_connection_error(&self) -> bool {
        match self {
            ServiceErr::ConfigSchemaNotFound(e) => e.spec_is_network_connection_error(),
            ServiceErr::TooManyConfigSchemas(e) => e.spec_is_network_connection_error(),
            ServiceErr::LatestConfigInstanceNotFound(e) => e.spec_is_network_connection_error(),
            ServiceErr::DeployedConfigInstanceNotFound(e) => e.spec_is_network_connection_error(),
            ServiceErr::ModelsErr(e) => e.spec_is_network_connection_error(),
            ServiceErr::StorageErr(e) => e.spec_is_network_connection_error(),
            ServiceErr::HTTPErr(e) => e.spec_is_network_connection_error(),
            ServiceErr::CrudErr(e) => e.spec_is_network_connection_error(),
            ServiceErr::SyncErr(e) => e.spec_is_network_connection_error(),
        }
    }

    fn code(&self) -> (r: Code) {
        match self {
            ServiceErr::ConfigSchemaNotFound(e) => e.code(),
            ServiceErr::TooManyConfigSchemas(e) => e.code(),
            ServiceErr::LatestConfigInstanceNotFound(e) => e.code(),
            ServiceErr::DeployedConfigInstanceNotFound(e) => e.code(),
            ServiceErr::ModelsErr(e) => e.code(),
            ServiceErr::StorageErr(e) => e.code(),
            ServiceErr::HTTPErr(e) => e.code(),
            ServiceErr::CrudErr(e) => e.code(),
            ServiceErr::SyncErr(e) => e.code(),
        }
    }

    fn http_status(&self) -> (r: u16) {
        match self {
            ServiceErr::ConfigSchemaNotFound(e) => e.http_status(),
            ServiceErr::TooManyConfigSchemas(e) => e.http_status(),
            ServiceErr::LatestConfigInstanceNotFound(e) => e.http_status(),
            ServiceErr::DeployedConfigInstanceNotFound(e) => e.http_status(),
            ServiceErr::ModelsErr(e) => e.http_status(),
            ServiceErr::StorageErr(e) => e.http_status(),
            ServiceErr::HTTPErr(e) => e.http_status(),
            ServiceErr::CrudErr(e) => e.http_status(),
            ServiceErr::SyncErr(e) => e.http_status(),
        }
    }

    fn is_network_connection_error(&self) -> (r: bool) {
        match self {
            ServiceErr::ConfigSchemaNotFound(e) => e.is_network_connection_error(),
            ServiceErr::TooManyConfigSchemas(e) => e.is_network_connection_error(),
            ServiceErr::LatestConfigInstanceNotFound(e) => e.is_network_connection_error(),
            ServiceErr::DeployedConfigInstanceNotFound(e) => e.is_network_connection_error(),
            ServiceErr::ModelsErr(e) => e.is_network_connection_error(),
            ServiceErr::StorageErr(e) => e.is_network_connection_error(),
            ServiceErr::HTTPErr(e) => e.is_network_connection_error(),
            ServiceErr::CrudErr(e) => e.is_network_connection_error(),
            ServiceErr::SyncErr(e) => e.is_network_connection_error(),
        }
    }
}

} // verus!
