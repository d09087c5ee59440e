//! Desired-state and observed-state model of a fleet of wasmCloud hosts:
//! resolution of a partially specified host configuration into a fully
//! defaulted one, and aggregation of per-application facts into a status.

pub mod config;
pub mod status;
