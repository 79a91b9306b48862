pub mod expand;
pub mod pagination;
pub mod query;
pub mod search;
pub mod client;
pub mod errors;
pub mod config_instances;
pub mod config_schemas;
