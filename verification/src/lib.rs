//! Bootstrap orchestration for the Nephelios control-plane container.
//!
//! The container engine is never called from here. Each operation is split into
//! the request that is sent to the engine and the reading of what the engine
//! answered; the order in which requests are issued is decided by two small
//! state machines, one for bringing the container up and one for taking it down.
//! The caller performs the pending action and hands the outcome back.

pub mod cli;
pub mod engine;
pub mod laws;
pub mod orchestrator;
pub mod puller;
pub mod service;
pub mod volume;
