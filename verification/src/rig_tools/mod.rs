//! Tools in the shape used by the rig agent framework: each tool validates its
//! arguments, does its work and renders a text result.

pub mod bash;
pub mod edit;
pub mod error;
pub mod glob;
pub mod grep;
pub mod read;
pub mod task;
pub mod todo;
pub mod util;
pub mod webfetch;
pub mod write;
