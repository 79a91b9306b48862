pub mod errors;
pub mod config_instances;
pub mod config_schemas;
pub mod device;
