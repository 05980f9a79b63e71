//! The challenge/response protocol of the mesh.

pub mod protocol;
pub mod token;
