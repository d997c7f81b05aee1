//! Errors of catalog loading and synchronisation.
use crate::models::ModelCatalogBuildError;
use vstd::prelude::*;

verus! {

/// Errors that can occur during catalog loading and synchronisation.
#[derive(Debug, Clone, PartialEq, Eq)]
pub enum CatalogError {
    /// The platform's cache directory could not be determined.
    CachePathNotFound,
    /// A configuration problem, such as an empty cache path override.
    Configuration(String),
    /// Reading or writing the cache failed; holds the rendered I/O error.
    Io(String),
    /// The sync request failed; holds the rendered HTTP error.
    Reqwest(String),
    /// The models.dev JSON could not be parsed; holds the rendered error.
    Json(String),
    /// Compressing or decompressing the cache failed.
    Zstd(String),
    /// The cached rows could not be decoded.
    BitcodeDecode(String),
    /// The cache file is malformed or incompatible.
    CacheFormat(String),
    /// The catalog could not be built from the rows.
    ModelCatalogBuild(ModelCatalogBuildError),
}

} // verus!
