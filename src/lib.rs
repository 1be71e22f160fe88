//! Redirects a wrapped build tool's output into a fast scratch directory and
//! mirrors the finished artifact tree back into a permanent directory.
//!
//! The library holds the decisions: how a scratch path is derived, how the
//! wrapped tool is to be invoked, whether a mirror pass follows, and which
//! filesystem operation each walked entry turns into. Running processes and
//! touching the disk is left to the caller.
pub mod cli;
pub mod error;
pub mod modules;
pub mod path;
