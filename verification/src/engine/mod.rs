pub mod execution;
pub mod state;
