//! What the functions of the library promise, told of their calls alone.
//!
//! A contract speaks the language of its module: views, outcomes, logs. Here the same
//! functions are held to what their callers see: for every call that can have given a
//! result, what that result is in terms of the arguments, and how the results of several
//! calls relate.

pub mod checks;
pub mod errors;
pub mod memory;
pub mod remote;
pub mod served;
pub mod wire;
