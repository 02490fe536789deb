//! A ledger for a decentralized compute marketplace.
//!
//! Participants register compute clusters and nodes, post tasks with a
//! reward, and nodes claim credit for completing tasks. The registry is a
//! single aggregate of clusters, nodes and tasks; every mutation either
//! applies fully or not at all, and every operation is verified against a
//! mathematical model of the registry state.
//!
//! The host execution environment (caller identity, durable storage,
//! atomicity of each invocation) is out of scope: each entry point takes the
//! caller identity as a plain argument and mutates the in-memory aggregate.

pub mod laws;
pub mod model;
pub mod registry;
