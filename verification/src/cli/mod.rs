//! The configuration of the command-line tool, as far as the sidecar reads it.

pub mod commands;
pub mod config;
