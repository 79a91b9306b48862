pub mod fsm;
pub mod fsm_laws;
pub mod errors;
pub mod apply;
pub mod filesys;
pub mod keyed;
