//! Byte channels and channel builders across an RPC stream.

pub mod client;
pub mod laws;
pub mod lifecycle;
pub mod server;
pub mod wire;
