pub mod config_instance;
pub mod config_schema;
pub mod agent;
pub mod device;
