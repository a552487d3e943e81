//! Byte channels: what they promise, channels in memory, channels across an RPC stream, and
//! checks that hold an implementation to the promises.
//!
//! The crate decides; it does not wait. An operation that has to wait in between is a
//! sequence of functions, each of which says what to wait for and takes what came of it.

pub mod echo;
pub mod error;
pub mod mem;
pub mod promises;
pub mod queue;
pub mod rpc;
pub mod testkit;
