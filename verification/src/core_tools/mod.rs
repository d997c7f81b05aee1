//! Framework-agnostic tool operations: requests, settings and the pure parts
//! of each operation.

pub mod bash;
pub mod edit;
pub mod error;
pub mod glob;
pub mod task;
pub mod webfetch;
pub mod workspace;
pub mod write;
