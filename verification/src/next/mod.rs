//! The current generation of the resolution engine.

pub mod api;
pub mod commands;
pub mod config;
pub mod git;
pub mod resolve;
pub mod secrets;
pub mod state;
