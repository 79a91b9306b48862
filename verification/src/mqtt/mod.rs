pub mod client;
pub mod errors;
pub mod topics;
