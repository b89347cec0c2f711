//! Confidential-computing status service core.
//!
//! On startup the service fetches a remote secret and fingerprints it,
//! validates a hardware-bound enclave key, and drives an attestation
//! provider to produce a report with consistent text and JSON views.
//! The resulting application state is held in a readers-writer store and
//! projected read-only over HTTP. This crate holds the verified core:
//! the startup orchestration state machine, fingerprinting, configuration
//! parsing, the shared state store, and the response projections.

pub mod config;
pub mod error;
pub mod fingerprint;
pub mod http;
pub mod startup;
pub mod state;
pub mod store;
pub mod text;
