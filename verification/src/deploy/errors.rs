//! Errors of deploying config instances.

use vstd::prelude::*;
use crate::cache::errors::CacheErr;
use crate::deploy::fsm::NextAction;
use crate::errors::{Code, ExternalErr, MiruError, INTERNAL_SERVER_ERROR};
use crate::models::config_instance::ConfigInstance;

verus! {

/// The instance's next action is not the one that was asked of it.
#[derive(Debug)]
pub struct InstanceNotDeployableErr {
    pub instance: ConfigInstance,
    pub next_action: NextAction,
}

/// Two instances want to be deployed in the same place.
#[derive(Debug)]
pub struct ConflictingDeploymentsErr {
    pub instances: Vec<ConfigInstance>,
}

/// The file system refused a write or a delete in the deployment directory.
#[derive(Debug)]
pub struct DeployFileSysErr {
    pub source: ExternalErr,
}

/// A cached instance or its content could not be read.
#[derive(Debug)]
pub struct DeployCrudErr {
    pub source: CacheErr,
}

/// The agent's storage could not be used.
#[derive(Debug)]
pub struct DeployStorageErr {
    pub source: ExternalErr,
}

#[derive(Debug)]
pub enum DeployErr {
    ConflictingDeploymentsErr(ConflictingDeploymentsErr),
    InstanceNotDeployableErr(InstanceNotDeployableErr),
    CrudErr(DeployCrudErr),
    FileSysErr(DeployFileSysErr),
    StorageErr(DeployStorageErr),
}

impl MiruError for InstanceNotDeployableErr {
    open spec fn spec_code(&self) -> Code {
        Code::InternalServerError
    }

    open spec fn spec_http_status(&self) -> u16 {
        INTERNAL_SERVER_ERROR
    }

    open spec fn spec_is_network_connection_error(&self) -> bool {
        false
    }

    fn code(&self) -> (r: Code) {
        Code::InternalServerError
    }

    fn http_status(&self) -> (r: u16) {
        INTERNAL_SERVER_ERROR
    }

    fn is_network_connection_error(&self) -> (r: bool) {
        false
    }
}

impl MiruError for ConflictingDeploymentsErr {
    open spec fn spec_code(&self) -> Code {
        Code::InternalServerError
    }

    open spec fn spec_http_status(&self) -> u16 {
        INTERNAL_SERVER_ERROR
    }

    open spec fn spec_is_network_connection_error(&self) -> bool {
        false
    }

    fn code(&self) -> (r: Code) {
        Code::InternalServerError
    }

    fn http_status(&self) -> (r: u16) {
        INTERNAL_SERVER_ERROR
    }

    fn is_network_connection_error(&self) -> (r: bool) {
        false
    }
}

impl MiruError for DeployFileSysErr {
    open spec fn spec_code(&self) -> Code {
        self.source.spec_code()
    }

    open spec fn spec_http_status(&self) -> u16 {
        self.source.spec_http_status()
    }

    open spec fn spec_is_network_connection_error(&self) -> bool {
        self.source.spec_is_network_connection_error()
    }

    fn code(&self) -> (r: Code) {
        self.source.code()
    }

    fn http_status(&self) -> (r: u16) {
        self.source.http_status()
    }

    fn is_network_connection_error(&self) -> (r: bool) {
        self.source.is_network_connection_error()
    }
}

impl MiruError for DeployCrudErr {
    open spec fn spec_code(&self) -> Code {
        self.source.spec_code()
    }

    open spec fn spec_http_status(&self) -> u16 {
        self.source.spec_http_status()
    }

    open spec fn spec_is_network_connection_error(&self) -> bool {
        self.source.spec_is_network_connection_error()
    }

    fn code(&self) -> (r: Code) {
        self.source.code()
    }

    fn http_status(&self) -> (r: u16) {
        self.source.http_status()
    }

    fn is_network_connection_error(&self) -> (r: bool) {
        self.source.is_network_connection_error()
    }
}

impl MiruError for DeployStorageErr {
    open spec fn spec_code(&self) -> Code {
        self.source.spec_code()
    }

    open spec fn spec_http_status(&self) -> u16 {
        self.source.spec_http_status()
    }

    open spec fn spec_is_network_connection_error(&self) -> bool {
        self.source.spec_is_network_connection_error()
    }

    fn code(&self) -> (r: Code) {
        self.source.code()
    }

    fn http_status(&self) -> (r: u16) {
        self.source.http_status()
    }

    fn is_network_connection_error(&self) -> (r: bool) {
        self.source.is_network_connection_error()
    }
}

impl MiruError for DeployErr {
    open spec fn spec_code(&self) -> Code {
        match self {
            DeployErr::ConflictingDeploymentsErr(e) => e.spec_code(),
            DeployErr::InstanceNotDeployableErr(e) => e.spec_code(),
            DeployErr::CrudErr(e) => e.spec_code(),
            DeployErr::FileSysErr(e) => e.spec_code(),
            DeployErr::StorageErr(e) => e.spec_code(),
        }
    }

    open spec fn spec_http_status(&self) -> u16 {
        match self {
            DeployErr::ConflictingDeploymentsErr(e) => e.spec_http_status(),
            DeployErr::InstanceNotDeployableErr(e) => e.spec_http_status(),
            DeployErr::CrudErr(e) => e.spec_http_status(),
            DeployErr::FileSysErr(e) => e.spec_http_status(),
            DeployErr::StorageErr(e) => e.spec_http_status(),
        }
    }

    open spec fn spec_is_network_connection_error(&self) -> bool {
        match self {
            DeployErr::ConflictingDeploymentsErr(e) => e.spec_is_network_connection_error(),
            DeployErr::InstanceNotDeployableErr(e) => e.spec_is_network_connection_error(),
            DeployErr::CrudErr(e) => e.spec_is_network_connection_error(),
            DeployErr::FileSysErr(e) => e.spec_is_network_connection_error(),
            DeployErr::StorageErr(e) => e.spec_is_network_connection_error(),
        }
    }

    fn code(&self) -> (r: Code) {
        match self {
            DeployErr::ConflictingDeploymentsErr(e) => e.code(),
            DeployErr::InstanceNotDeployableErr(e) => e.code(),
            DeployErr::CrudErr(e) => e.code(),
            DeployErr::FileSysErr(e) => e.code(),
            DeployErr::StorageErr(e) => e.code(),
        }
    }

    fn http_status(&self) -> (r: u16) {
        match self {
            DeployErr::ConflictingDeploymentsErr(e) => e.http_status(),
            DeployErr::InstanceNotDeployableErr(e) => e.http_status(),
            DeployErr::CrudErr(e) => e.http_status(),
            DeployErr::FileSysErr(e) => e.http_status(),
            DeployErr::StorageErr(e) => e.http_status(),
        }
    }

    fn is_network_connection_error(&self) -> (r: bool) {
        match self {
            DeployErr::ConflictingDeploymentsErr(e) => e.is_network_connection_error(),
            DeployErr::InstanceNotDeployableErr(e) => e.is_network_connection_error(),
            DeployErr::CrudErr(e) => e.is_network_connection_error(),
            DeployErr::FileSysErr(e) => e.is_network_connection_error(),
            DeployErr::StorageErr(e) => e.is_network_connection_error(),
        }
    }
}

} // verus!
