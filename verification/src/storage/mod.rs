pub mod agent;
pub mod caches;
pub mod layout;
