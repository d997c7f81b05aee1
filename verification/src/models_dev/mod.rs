//! The models.dev catalog: mapping its provider and model metadata into
//! catalog rows, the compact cache of those rows, and the decisions of the
//! online-first load with its cache fallback.

pub mod error;
pub mod payload;
pub mod sources;
pub mod sync;
