//! Server-side orchestration core for a two-party threshold ECDSA
//! key-generation protocol.
//!
//! The crate sequences the key-generation and chain-code rounds of the
//! protocol for party one. Each round is an independent request: the
//! orchestrator loads the artifacts that the round consumes from a
//! persistent session store, hands them to the cryptographic engine,
//! and persists the artifact that the round produces. The store is
//! keyed by a collision-free composition of owner id, session id and
//! artifact kind, so sessions of different owners can never observe
//! each other's artifacts.

pub mod errors;
pub mod ident;
pub mod orchestrator;
pub mod store;
