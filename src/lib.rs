//! Context-carrying errors for asynchronous operations, the resumable
//! combinators that attach context and sequence dependent operations, and a
//! registry of error observers with a single-flight dispatcher.
pub mod error;
pub mod future_ext;
pub mod hooks;

pub use crate::error::AsyncError;
