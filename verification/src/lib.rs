//! An incremental computation engine: keys that name memoizable computations,
//! a context that evaluates them while tracking dependencies, and a detector
//! that turns a key requesting itself into an error instead of a hang.
//!
//! Beside the engine stand the rules of the commands that are built on it:
//! how listings of targets are written, how the command line of a test is put
//! together and its results are reported, and which names a documentation
//! shows.

pub mod bxl;
pub mod cancellation;
pub mod computations;
pub mod cycles;
pub mod data;
pub mod docs;
pub mod error;
pub mod expand;
pub mod formatter;
pub mod json;
pub mod key;
pub mod memo;
pub mod opaque;
pub mod orchestrator;
pub mod targets;
pub mod transaction;
