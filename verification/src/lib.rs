//! A privacy-preserving relay for a compact-block streaming service.
//!
//! The relay sits between a light client and an upstream compact-block
//! server. Every remote call but one is forwarded verbatim through a
//! shared upstream connection; the block-range scan is relayed through a
//! dedicated per-request task that redacts shielded-output data in each
//! block according to the operator's configuration before handing it to
//! the client.
//!
//! This crate holds the verified core: the configuration value, the
//! redaction policy, the relay task's state machine, and the dispatch
//! rule for the forwarded operations. The network plumbing that drives
//! them lives outside the library.

pub mod config;
pub mod connect;
pub mod error;
pub mod facade;
pub mod redact;
pub mod relay;

pub use config::Config;
pub use error::Error;
