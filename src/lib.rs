//! Ordered multi-stage replication of source-control history: a circuit
//! breaker for a flaky remote endpoint, per-kind batching stage workers,
//! per-entry ordering gates and monotonic checkpoints.

pub mod checkpoint;
pub mod client_info;
pub mod counters;
pub mod error;
pub mod fetch_cause;
pub mod health;
pub mod messages;
pub mod pipeline;
pub mod sender;
pub mod types;
pub mod worker;
