//! Instrumentation core of a contract-execution test harness: cheat overlays
//! that override, per contract address, what a contract reads of its block and
//! its transaction; the classification of failed nested calls; and the hint
//! handler that is active inside a nested contract call.

pub mod cheatcodes;
pub mod error;
pub mod execution;
pub mod felt;
pub mod rpc;
pub mod state;
