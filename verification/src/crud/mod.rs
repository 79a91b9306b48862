pub mod config_instance;
pub mod config_schema;
