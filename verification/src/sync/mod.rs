pub mod errors;
pub mod syncer;
pub mod pull;
pub mod push;
pub mod sync;
