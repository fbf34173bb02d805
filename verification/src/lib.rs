//! Relay for two state-changing operations — transferring ownership of and
//! burning leaves of an externally owned compressed-asset ledger.
//!
//! The relay assembles the exact account list and binary argument layout the
//! ledger program expects, appends a caller-supplied merkle proof path, and
//! hands the finished instruction to the host environment for a single
//! cross-program invocation. It holds no state of its own and performs no
//! semantic validation: proof verification and state mutation belong entirely
//! to the ledger program.

pub mod accounts;
pub mod encode;
pub mod relay;
pub mod types;
