//! The standalone challenge proxy: its configuration and what it answers.

pub mod config;
pub mod server;
