//! Jump to a named project directory in a fresh shell.
//!
//! This crate holds the decisions of the `goto` tool: what the configuration
//! looks like, how a project name is resolved against it, in which order the
//! program touches the outside world, and how every outcome is reported. The
//! crate itself performs no I/O. A driver feeds it what happened (`Reply`) and
//! carries out what it asks for next (`Request`).

pub mod config;
pub mod laws;
pub mod outcome;
pub mod replacer;
pub mod resolver;
pub mod session;
