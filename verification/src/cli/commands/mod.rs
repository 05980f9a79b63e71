//! What the commands of the tool compute before they call the gateway.

pub mod entities;
pub mod toolbox;
