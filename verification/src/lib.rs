//! A resilience toolkit for wrapping a fallible, repeatable operation:
//! a backoff engine that paces retries over time, and a circuit breaker
//! that stops hammering a persistently failing operation and periodically
//! probes for recovery. Every retry entry point carries a contract that
//! pins down the outcome, the counters and the pacing state for any plan
//! of operation outcomes.

pub mod backoff;
pub mod circuit_breaker;
pub mod error;
pub mod operation;
