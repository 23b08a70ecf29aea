//! A small traversal engine that applies a file-level operation (copy, move,
//! or delete) across a source that may be a single file, a directory, or a
//! wildcard mask whose last path segment contains `*`.
//!
//! The engine itself performs no I/O: it is a step function from the current
//! state and an observed event (an existence probe, a directory listing, the
//! outcome of one file operation) to the next action a driver should perform.
//! A driver owns the actual filesystem calls and feeds the results back in.

pub mod engine;
pub mod errors;
pub mod glob;
pub mod laws;
pub mod paths;

pub use errors::WildcardingError;
