//! Decision logic of a device configuration agent: the deployment state machine of
//! config instances, the key/value caches that hold them, the queries the agent
//! sends to its backend, and the bookkeeping of its sync loop.

pub mod cache;
pub mod crud;
pub mod deploy;
pub mod errors;
pub mod filesys;
pub mod http;
pub mod ids;
pub mod logs;
pub mod models;
pub mod mqtt;
pub mod options;
pub mod server;
pub mod services;
pub mod storage;
pub mod strings;
pub mod sync;
pub mod time;
pub mod utils;
