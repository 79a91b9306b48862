//! Errors of syncing with the backend.

use vstd::prelude::*;
use crate::cache::errors::{CacheErr, ReceiveActorMessageErr, SendActorMessageErr};
use crate::deploy::errors::DeployErr;
use crate::errors::{Code, ExternalErr, MiruError, INTERNAL_SERVER_ERROR};

verus! {

/// The device could not authenticate.
#[derive(Debug)]
pub struct SyncAuthErr {
    pub source: ExternalErr,
}

/// A cache of the agent failed.
#[derive(Debug)]
pub struct SyncCacheErr {
    pub source: CacheErr,
}

/// A cached record could not be read or found.
#[derive(Debug)]
pub struct SyncCrudErr {
    pub source: CacheErr,
}

/// Applying the config instances failed.
#[derive(Debug)]
pub struct SyncDeployErr {
    pub source: DeployErr,
}

/// A request to the backend failed.
#[derive(Debug)]
pub struct SyncHTTPClientErr {
    pub source: ExternalErr,
}

/// The agent's storage could not be used.
#[derive(Debug)]
pub struct SyncStorageErr {
    pub source: ExternalErr,
}

/// Several parts of a sync failed.
#[derive(Debug)]
pub struct SyncErrors {
    pub source: Vec<SyncErr>,
}

/// The backend sent a config instance without the data it was asked to include.
#[derive(Debug)]
pub struct ConfigInstanceDataNotFoundErr {
    pub instance_id: String,
}

/// The backend did not send every config instance it was asked for.
#[derive(Debug)]
pub struct MissingExpandedInstancesErr {
    pub expected_ids: Vec<String>,
    pub actual_ids: Vec<String>,
}

#[derive(Debug)]
pub enum SyncErr {
    AuthErr(Box<SyncAuthErr>),
    CacheErr(Box<SyncCacheErr>),
    CrudErr(Box<SyncCrudErr>),
    DeployErr(Box<SyncDeployErr>),
    HTTPClientErr(Box<SyncHTTPClientErr>),
    StorageErr(Box<SyncStorageErr>),
    SyncErrors(Box<SyncErrors>),
    ConfigInstanceDataNotFound(Box<ConfigInstanceDataNotFoundErr>),
    MissingExpandedInstances(Box<MissingExpandedInstancesErr>),
    SendActorMessageErr(Box<SendActorMessageErr>),
    ReceiveActorMessageErr(Box<ReceiveActorMessageErr>),
}

impl MiruError for SyncAuthErr {
    open spec fn spec_code(&self) -> Code {
        self.source.spec_code()
    }

    open spec fn spec_http_status(&self) -> u16 {
        self.source.spec_http_status()
    }

    open spec fn spec_is_network_connection_error(&self) -> bool {
        self.source.spec_is_network_connection_error()
    }

    fn code(&self) -> (r: Code) {
        self.source.code()
    }

    fn http_status(&self) -> (r: u16) {
        self.source.http_status()
    }

    fn is_network_connection_error(&self) -> (r: bool) {
        self.source.is_network_connection_error()
    }
}

impl MiruError for SyncCacheErr {
    open spec fn spec_code(&self) -> Code {
        self.source.spec_code()
    }

    open spec fn spec_http_status(&self) -> u16 {
        self.source.spec_http_status()
    }

    open spec fn spec_is_network_connection_error(&self) -> bool {
        self.source.spec_is_network_connection_error()
    }

    fn code(&self) -> (r: Code) {
        self.source.code()
    }

    fn http_status(&self) -> (r: u16) {
        self.source.http_status()
    }

    fn is_network_connection_error(&self) -> (r: bool) {
        self.source.is_network_connection_error()
    }
}

impl MiruError for SyncCrudErr {
    open spec fn spec_code(&self) -> Code {
        self.source.spec_code()
    }

    open spec fn spec_http_status(&self) -> u16 {
        self.source.spec_http_status()
    }

    open spec fn spec_is_network_connection_error(&self) -> bool {
        self.source.spec_is_network_connection_error()
    }

    fn code(&self) -> (r: Code) {
        self.source.code()
    }

    fn http_status(&self) -> (r: u16) {
        self.source.http_status()
    }

    fn is_network_connection_error(&self) -> (r: bool) {
        self.source.is_network_connection_error()
    }
}

impl MiruError for SyncDeployErr {
    open spec fn spec_code(&self) -> Code {
        self.source.spec_code()
    }

    open spec fn spec_http_status(&self) -> u16 {
        self.source.spec_http_status()
    }

    open spec fn spec_is_network_connection_error(&self) -> bool {
        self.source.spec_is_network_connection_error()
    }

    fn code(&self) -> (r: Code) {
        self.source.code()
    }

    fn http_status(&self) -> (r: u16) {
        self.source.http_status()
    }

    fn is_network_connection_error(&self) -> (r: bool) {
        self.source.is_network_connection_error()
    }
}

impl MiruError for SyncHTTPClientErr {
    open spec fn spec_code(&self) -> Code {
        self.source.spec_code()
    }

    open spec fn spec_http_status(&self) -> u16 {
        self.source.spec_http_status()
    }

    open spec fn spec_is_network_connection_error(&self) -> bool {
        self.source.spec_is_network_connection_error()
    }

    fn code(&self) -> (r: Code) {
        self.source.code()
    }

    fn http_status(&self) -> (r: u16) {
        self.source.http_status()
    }

    fn is_network_connection_error(&self) -> (r: bool) {
        self.source.is_network_connection_error()
    }
}

impl MiruError for SyncStorageErr {
    open spec fn spec_code(&self) -> Code {
        self.source.spec_code()
    }

    open spec fn spec_http_status(&self) -> u16 {
        self.source.spec_http_status()
    }

    open spec fn spec_is_network_connection_error(&self) -> bool {
        self.source.spec_is_network_connection_error()
    }

    fn code(&self) -> (r: Code) {
        self.source.code()
    }

    fn http_status(&self) -> (r: u16) {
        self.source.http_status()
    }

    fn is_network_connection_error(&self) -> (r: bool) {
        self.source.is_network_connection_error()
    }
}

impl MiruError for ConfigInstanceDataNotFoundErr {
    open spec fn spec_code(&self) -> Code {
        Code::InternalServerError
    }

    open spec fn spec_http_status(&self) -> u16 {
        INTERNAL_SERVER_ERROR
    }

    open spec fn spec_is_network_connection_error(&self) -> bool {
        false
    }

    fn code(&self) -> (r: Code) {
        Code::InternalServerError
    }

    fn http_status(&self) -> (r: u16) {
        INTERNAL_SERVER_ERROR
    }

    fn is_network_connection_error(&self) -> (r: bool) {
        false
    }
}

impl MiruError for MissingExpandedInstancesErr {
    open spec fn spec_code(&self) -> Code {
        Code::InternalServerError
    }

    open spec fn spec_http_status(&self) -> u16 {
        INTERNAL_SERVER_ERROR
    }

    open spec fn spec_is_network_connection_error(&self) -> bool {
        false
    }

    fn code(&self) -> (r: Code) {
        Code::InternalServerError
    }

    fn http_status(&self) -> (r: u16) {
        INTERNAL_SERVER_ERROR
    }

    fn is_network_connection_error(&self) -> (r: bool) {
        false
    }
}

/// A sync error comes from lost network connections only; several errors together
/// do so when each of them does.
pub open spec fn spec_sync_err_network(e: SyncErr) -> bool
    decreases e,
{
    match e {
        SyncErr::AuthErr(x) => x.spec_is_network_connection_error(),
        SyncErr::CacheErr(x) => x.spec_is_network_connection_error(),
        SyncErr::CrudErr(x) => x.spec_is_network_connection_error(),
        SyncErr::DeployErr(x) => x.spec_is_network_connection_error(),
        SyncErr::HTTPClientErr(x) => x.spec_is_network_connection_error(),
        SyncErr::StorageErr(x) => x.spec_is_network_connection_error(),
        SyncErr::SyncErrors(x) => {
            proof {
                assert(decreases_to!(e => x));
                assert(decreases_to!(x => (*x).source));
                assert(decreases_to!((*x).source => (*x).source@));
            }
            spec_all_network(x.source@)
        },
        SyncErr::ConfigInstanceDataNotFound(x) => x.spec_is_network_connection_error(),
        SyncErr::MissingExpandedInstances(x) => x.spec_is_network_connection_error(),
        SyncErr::SendActorMessageErr(x) => x.spec_is_network_connection_error(),
        SyncErr::ReceiveActorMessageErr(x) => x.spec_is_network_connection_error(),
    }
}

/// Every error of `s` comes from lost network connections only.
pub open spec fn spec_all_network(s: Seq<SyncErr>) -> bool
    decreases s,
{
    if s.len() == 0 {
        true
    } else {
        spec_all_network(s.drop_last()) && spec_sync_err_network(s.last())
    }
}

proof fn lemma_all_network(s: Seq<SyncErr>)
    ensures
        spec_all_network(s) == forall|i: int| 0 <= i < s.len() ==> #[trigger] spec_sync_err_network(s[i]),
    decreases s.len(),
{
    if s.len() > 0 {
        let t = s.drop_last();
        lemma_all_network(t);
        if spec_all_network(s) {
            assert forall|i: int| 0 <= i < s.len() implies #[trigger] spec_sync_err_network(s[i]) by {
                if i < s.len() - 1 {
                    assert(t[i] == s[i]);
                    assert(spec_sync_err_network(t[i]));
                }
            }
        }
        if forall|i: int| 0 <= i < s.len() ==> #[trigger] spec_sync_err_network(s[i]) {
            assert forall|i: int| 0 <= i < t.len() implies #[trigger] spec_sync_err_network(t[i]) by {
                assert(t[i] == s[i]);
                assert(spec_sync_err_network(s[i]));
            }
            assert(spec_sync_err_network(s[s.len() - 1]));
        }
    }
}

#[verifier::loop_isolation(false)]
fn sync_err_is_network(e: &SyncErr) -> (r: bool)
    ensures
        r == spec_sync_err_network(*e),
    decreases e,
{
    match e {
        SyncErr::AuthErr(x) => x.is_network_connection_error(),
        SyncErr::CacheErr(x) => x.is_network_connection_error(),
        SyncErr::CrudErr(x) => x.is_network_connection_error(),
        SyncErr::DeployErr(x) => x.is_network_connection_error(),
        SyncErr::HTTPClientErr(x) => x.is_network_connection_error(),
        SyncErr::StorageErr(x) => x.is_network_connection_error(),
        SyncErr::SyncErrors(x) => {
            // only a network connection error if all errors are network connection errors
            proof {
                lemma_all_network(x.source@);
            }
            let mut i: usize = 0;
            while i < x.source.len()
                invariant
                    0 <= i <= x.source@.len(),
                    forall|j: int| 0 <= j < i ==> #[trigger] spec_sync_err_network(x.source@[j]),
                    spec_all_network(x.source@) == forall|j: int|
                        0 <= j < x.source@.len() ==> #[trigger] spec_sync_err_network(x.source@[j]),
                    spec_sync_err_network(*e) == spec_all_network(x.source@),
                decreases x.source@.len() - i,
            {
                proof {
                    let b: Box<SyncErrors> = *x;
                    assert(decreases_to!(*e => b));
                    assert(decreases_to!(b => (*b).source));
                    assert(decreases_to!((*b).source => (*b).source@));
                    assert(decreases_to!((*b).source@ => (*b).source@[i as int]));
                    assert(decreases_to!(*e => x.source@[i as int]));
                }
                if !sync_err_is_network(&x.source[i]) {
                    return false;
                }
                i = i + 1;
            }
            true
        },
        SyncErr::ConfigInstanceDataNotFound(x) => x.is_network_connection_error(),
        SyncErr::MissingExpandedInstances(x) => x.is_network_connection_error(),
        SyncErr::SendActorMessageErr(x) => x.is_network_connection_error(),
        SyncErr::ReceiveActorMessageErr(x) => x.is_network_connection_error(),
    }
}

impl MiruError for SyncErrors {
    open spec fn spec_code(&self) -> Code {
        Code::InternalServerError
    }

    open spec fn spec_http_status(&self) -> u16 {
        INTERNAL_SERVER_ERROR
    }

    open spec fn spec_is_network_connection_error(&self) -> bool {
        spec_all_network(self.source@)
    }

    fn code(&self) -> (r: Code) {
        Code::InternalServerError
    }

    fn http_status(&self) -> (r: u16) {
        INTERNAL_SERVER_ERROR
    }

    fn is_network_connection_error(&self) -> (r: bool) {
        // only a network connection error if all errors are network connection errors
        proof {
            lemma_all_network(self.source@);
        }
        let mut i: usize = 0;
        while i < self.source.len()
            invariant
                0 <= i <= self.source@.len(),
                forall|j: int| 0 <= j < i ==> #[trigger] spec_sync_err_network(self.source@[j]),
                spec_all_network(self.source@) == forall|j: int|
                    0 <= j < self.source@.len() ==> #[trigger] spec_sync_err_network(self.source@[j]),
            decreases self.source@.len() - i,
        {
            if !sync_err_is_network(&self.source[i]) {
                return false;
            }
            i = i + 1;
        }
        true
    }
}

impl MiruError for SyncErr {
    open spec fn spec_code(&self) -> Code {
        match self {
            SyncErr::AuthErr(e) => e.spec_code(),
            SyncErr::CacheErr(e) => e.spec_code(),
            SyncErr::CrudErr(e) => e.spec_code(),
            SyncErr::DeployErr(e) => e.spec_code(),
            SyncErr::HTTPClientErr(e) => e.spec_code(),
            SyncErr::StorageErr(e) => e.spec_code(),
            SyncErr::SyncErrors(e) => e.spec_code(),
            SyncErr::ConfigInstanceDataNotFound(e) => e.spec_code(),
            SyncErr::MissingExpandedInstances(e) => e.spec_code(),
            SyncErr::SendActorMessageErr(e) => e.spec_code(),
            SyncErr::ReceiveActorMessageErr(e) => e.spec_code(),
        }
    }

    open spec fn spec_http_status(&self) -> u16 {
        match self {
            SyncErr::AuthErr(e) => e.spec_http_status(),
            SyncErr::CacheErr(e) => e.spec_http_status(),
            SyncErr::CrudErr(e) => e.spec_http_status(),
            SyncErr::DeployErr(e) => e.spec_http_status(),
            SyncErr::HTTPClientErr(e) => e.spec_http_status(),
            SyncErr::StorageErr(e) => e.spec_http_status(),
            SyncErr::SyncErrors(e) => e.spec_http_status(),
            SyncErr::ConfigInstanceDataNotFound(e) => e.spec_http_status(),
            SyncErr::MissingExpandedInstances(e) => e.spec_http_status(),
            SyncErr::SendActorMessageErr(e) => e.spec_http_status(),
            SyncErr::ReceiveActorMessageErr(e) => e.spec_http_status(),
        }
    }

    open spec fn spec_is_network_connection_error(&self) -> bool {
        spec_sync_err_network(*self)
    }

    fn code(&self) -> (r: Code) {
        match self {
            SyncErr::AuthErr(e) => e.code(),
            SyncErr::CacheErr(e) => e.code(),
            SyncErr::CrudErr(e) => e.code(),
            SyncErr::DeployErr(e) => e.code(),
            SyncErr::HTTPClientErr(e) => e.code(),
            SyncErr::StorageErr(e) => e.code(),
            SyncErr::SyncErrors(e) => e.code(),
            SyncErr::ConfigInstanceDataNotFound(e) => e.code(),
            SyncErr::MissingExpandedInstances(e) => e.code(),
            SyncErr::SendActorMessageErr(e) => e.code(),
            SyncErr::ReceiveActorMessageErr(e) => e.code(),
        }
    }

    fn http_status(&self) -> (r: u16) {
        match self {
            SyncErr::AuthErr(e) => e.http_status(),
            SyncErr::CacheErr(e) => e.http_status(),
            SyncErr::CrudErr(e) => e.http_status(),
            SyncErr::DeployErr(e) => e.http_status(),
            SyncErr::HTTPClientErr(e) => e.http_status(),
            SyncErr::StorageErr(e) => e.http_status(),
            SyncErr::SyncErrors(e) => e.http_status(),
            SyncErr::ConfigInstanceDataNotFound(e) => e.http_status(),
            SyncErr::MissingExpandedInstances(e) => e.http_status(),
            SyncErr::SendActorMessageErr(e) => e.http_status(),
            SyncErr::ReceiveActorMessageErr(e) => e.http_status(),
        }
    }

    fn is_network_connection_error(&self) -> (r: bool) {
        sync_err_is_network(self)
    }
}


} // verus!
