//! Command-dispatch and session-bootstrap layer for an operator-facing
//! validator process.
//!
//! The library routes a parsed command to exactly one handler decision,
//! bootstraps the configuration / identity / persistence chain that the
//! rental command family needs, and loads and validates the configuration
//! document every handler shares. All outside work (file reads, the
//! blockchain client, the persistence engine) is performed by the caller,
//! which feeds each outcome back into the verified decision functions here.

pub mod error;
pub mod report;
pub mod text;
pub mod config;
pub mod identity;
pub mod dispatch;
