//! A bridge to a worker process that speaks newline-delimited JSON over its
//! standard streams: the line codec, the supervisor's lifecycle and dispatch
//! rules, and the facade that callers use.

pub mod codec;
pub mod supervisor;
pub mod bridge;
