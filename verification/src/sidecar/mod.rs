//! The sidecar: its configuration, its resource cache and the decisions of
//! its two proxies.

pub mod cache;
pub mod config;
pub mod inboundproxy;
pub mod outboundproxy;
pub mod sidecar;
