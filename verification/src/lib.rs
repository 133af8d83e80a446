//! Resolution of versioned command-line developer tools.
//!
//! The library decides which executable on a host satisfies a requested
//! major version of a tool, and what an install or uninstall run has to do
//! about it. It performs no I/O: the caller looks executables up, runs them,
//! and hands the results in as plain values.

pub mod directory;
pub mod plan;
pub mod probe;
pub mod resolve;
pub mod session;
pub mod text;
pub mod version;
