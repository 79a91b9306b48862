pub mod entry;
pub mod errors;
pub mod table;
pub mod file;
pub mod laws;
