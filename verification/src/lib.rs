//! Layered deployment-configuration resolution.
//!
//! The crate resolves "where should a deployment run, and with what
//! arguments" from layered, possibly remote, possibly self-redirecting
//! configuration sources.  Addresses (local directories or Git
//! repositories) are turned into concrete filesystem roots, per-directory
//! configuration files are merged deepest-wins, configuration may redirect
//! resolution to another address until a fixed point is reached, and
//! command-line arguments, environment variables and configuration merge
//! into final run and secret arguments with strict precedence.
//!
//! All decision logic lives here with verified contracts.  Reading files,
//! running the `git` binary and spawning the final entrypoint are outside
//! work: callers perform the actions this library plans and hand the
//! results back as plain values.

pub mod cli;
pub mod config;
pub mod errors;
pub mod git;
pub mod next;
pub mod process;
pub mod state;
pub mod paths;
pub mod strutil;
