//! Core logic of a multi-shard gateway client: startup precondition checks,
//! configuration parsing, the bounded per-channel snapshot cache, the
//! per-shard worker state machine, and the supervisor that owns the worker
//! pool's lifetime.

pub mod cache;
pub mod config;
pub mod errors;
pub mod startup;
pub mod supervisor;
pub mod worker;
