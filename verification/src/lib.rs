//! Data plane of the Otoroshi service-mesh sidecar: the challenge/response
//! codec, the resource cache and the decisions of the inbound and outbound
//! proxies, each stated with its contract.

pub mod challenge;
pub mod cli;
pub mod http_utils;
pub mod otoroshi;
pub mod sidecar;
pub mod utils;
