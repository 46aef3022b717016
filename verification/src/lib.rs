//! Runs an untrusted WebAssembly module once, inside a fresh isolated store,
//! with a fixed set of host imports, and reports a single typed outcome.

pub mod framing;
pub mod host;
pub mod invoker;
pub mod laws;
pub mod linker;
pub mod loader;
pub mod outcome;
pub mod pipeline;
pub mod response;
pub mod runtime;
pub mod shape;
