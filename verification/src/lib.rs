//! Verified core of the Hyperion IPDA strategy tool: market phases and
//! trade actions, the Hamiltonian phase state machine, the IPDA phase
//! classifier, the candle window kept by the execution engine, the bar
//! clock of the candle builder, the simulated tick replay, and the Bitget
//! request signing and request building.
pub mod types;
pub mod continuum;
pub mod phase;
pub mod engine;
pub mod data;
pub mod brokers;
pub mod config;
pub mod routing;
pub mod state;
pub mod sentinel;
