//! Helpers shared by the other modules.

pub mod browser;
pub mod http;
pub mod otoroshi;
pub mod search;
pub mod text;
