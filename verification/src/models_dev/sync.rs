//! Decisions of the online-first catalog load: a conditional request with
//! the cached ETag, a refresh on `200 OK`, the cache on `304 Not Modified`,
//! and the cache as a fallback when the request fails.
//!
//! Reading the cache file, sending the request and writing the cache are the
//! caller's part; at each step it asks this module what to do next.
use crate::models::ModelCatalog;
use crate::models_dev::error::CatalogError;
use crate::text::{concat2, owned, push_str};
use vstd::prelude::*;

verus! {

/// The models.dev API endpoint.
pub const MODELS_DEV_API_URL: &'static str = "https://models.dev/api.json";

/// Connect and request timeout of the sync request, in seconds.
pub const REQUEST_TIMEOUT_SECS: u64 = 30;

/// Environment variable that overrides the cache file path.
pub const CACHE_PATH_ENV_VAR: &'static str = "RELOADED_CODE_MODELS_DEV_CACHE_PATH";

/// Entry point for loading models.dev catalogs. Its loaders read and write
/// the cache file and talk to the network, so they stand with the caller and
/// follow the steps this module decides.
#[derive(Debug, Clone, Copy, PartialEq, Eq, Structural)]
pub struct ModelsDevCatalog;

/// How the catalog was obtained.
#[derive(Debug, Clone, Copy, PartialEq, Eq, Structural)]
pub enum CatalogLoadSource {
    /// Downloaded fresh (`200 OK`); the cache was updated.
    Downloaded,
    /// The cache was current (`304 Not Modified`) and was loaded.
    NotModifiedCache,
    /// The request failed and the cached copy was loaded instead.
    FallbackCache,
}

impl CatalogLoadSource {
    /// Whether the catalog came from the network.
    pub fn is_fresh(&self) -> (b: bool)
        ensures
            b == (*self == CatalogLoadSource::Downloaded),
    {
        match self {
            CatalogLoadSource::Downloaded => true,
            _ => false,
        }
    }

    /// Whether the catalog came from the cache, current or as a fallback.
    pub fn is_cached(&self) -> (b: bool)
        ensures
            b == (*self == CatalogLoadSource::NotModifiedCache || *self == CatalogLoadSource::FallbackCache),
    {
        match self {
            CatalogLoadSource::NotModifiedCache | CatalogLoadSource::FallbackCache => true,
            _ => false,
        }
    }

    /// Whether the cache was loaded because the request failed.
    pub fn is_fallback(&self) -> (b: bool)
        ensures
            b == (*self == CatalogLoadSource::FallbackCache),
    {
        match self {
            CatalogLoadSource::FallbackCache => true,
            _ => false,
        }
    }
}

/// A loaded catalog and how it was obtained.
pub struct CatalogLoadResult {
    pub catalog: ModelCatalog,
    pub source: CatalogLoadSource,
}

/// The next step of a load.
#[derive(Debug, Clone, PartialEq, Eq)]
pub enum SyncStep {
    /// Read the response body and rebuild the catalog from it, marked with
    /// this source.
    UseResponse(CatalogLoadSource),
    /// Rebuild the catalog from the cached copy, marked with this source.
    LoadCache(CatalogLoadSource),
    /// Stop with this error.
    Fail(CatalogError),
}

/// Whether a status is worth falling back to the cache for: too many
/// requests, or a server error.
pub open spec fn transient_status(status: u16) -> bool {
    status == 429 || (500 <= status && status <= 599)
}

/// Whether a status is transient (`429` or `5xx`).
pub fn is_transient_status(status: u16) -> (b: bool)
    ensures
        b == transient_status(status),
{
    status == 429 || (500 <= status && status <= 599)
}

/// The step after the request failed: the cache when there is one, else the
/// error met while reading it, else the request's own error.
pub fn load_after_request_failure(request_error: String, has_cache: bool, cache_error: Option<CatalogError>) -> (s: SyncStep)
    ensures
        has_cache ==> s == SyncStep::LoadCache(CatalogLoadSource::FallbackCache),
        !has_cache ==> match cache_error {
            Some(e) => s == SyncStep::Fail(e),
            None => s == SyncStep::Fail(CatalogError::Reqwest(request_error)),
        },
{
    if has_cache {
        return SyncStep::LoadCache(CatalogLoadSource::FallbackCache);
    }
    match cache_error {
        Some(e) => SyncStep::Fail(e),
        None => SyncStep::Fail(CatalogError::Reqwest(request_error)),
    }
}

/// The message for a status the load does not expect; `status_text` is the
/// rendered status, such as `404 Not Found`.
pub open spec fn unexpected_status_message(status_text: Seq<char>) -> Seq<char> {
    "unexpected catalog sync status: "@ + status_text
}

/// The step after a response arrived with `status`.
pub fn step_after_response(status: u16, status_text: &str, has_cache: bool, cache_error: Option<CatalogError>) -> (s: SyncStep)
    ensures
        status == 200 ==> s == SyncStep::UseResponse(CatalogLoadSource::Downloaded),
        status == 304 ==> if has_cache {
            s == SyncStep::LoadCache(CatalogLoadSource::NotModifiedCache)
        } else {
            match cache_error {
                Some(e) => s == SyncStep::Fail(e),
                None => s matches SyncStep::Fail(CatalogError::CacheFormat(m)) && m@
                    == "received 304 but no cached payload is available"@,
            }
        },
        status != 200 && status != 304 && transient_status(status) ==> if has_cache {
            s == SyncStep::LoadCache(CatalogLoadSource::FallbackCache)
        } else {
            match cache_error {
                Some(e) => s == SyncStep::Fail(e),
                None => s matches SyncStep::Fail(CatalogError::Configuration(m)) && m@
                    == unexpected_status_message(status_text@),
            }
        },
        status != 200 && status != 304 && !transient_status(status) ==> (s matches SyncStep::Fail(
            CatalogError::Configuration(m),
        ) && m@ == unexpected_status_message(status_text@)),
{
    if status == 200 {
        return SyncStep::UseResponse(CatalogLoadSource::Downloaded);
    }
    if status == 304 {
        if has_cache {
            return SyncStep::LoadCache(CatalogLoadSource::NotModifiedCache);
        }
        return match cache_error {
            Some(e) => SyncStep::Fail(e),
            None => SyncStep::Fail(CatalogError::CacheFormat(owned("received 304 but no cached payload is available"))),
        };
    }
    if is_transient_status(status) {
        if has_cache {
            return SyncStep::LoadCache(CatalogLoadSource::FallbackCache);
        }
        if let Some(e) = cache_error {
            return SyncStep::Fail(e);
        }
    }
    SyncStep::Fail(CatalogError::Configuration(concat2("unexpected catalog sync status: ", status_text)))
}

/// The cache file path: the override variable's value when it is set (and
/// not empty), else the file under the platform cache directory.
pub fn resolve_cache_path(override_value: Option<String>, cache_dir: Option<String>) -> (r: Result<String, CatalogError>)
    ensures
        match override_value {
            Some(v) => if v@.len() == 0 {
                r matches Err(CatalogError::Configuration(m)) && m@ == CACHE_PATH_ENV_VAR@
                    + " is set but empty"@
            } else {
                r matches Ok(p) && p@ == v@
            },
            None => match cache_dir {
                None => r == Err::<String, CatalogError>(CatalogError::CachePathNotFound),
                Some(d) => r matches Ok(p) && p@ == d@ + "/reloaded-code/models.dev.catalog.v1.cache"@,
            },
        },
{
    if let Some(v) = override_value {
        if v.as_str().is_empty() {
            let mut m = owned(CACHE_PATH_ENV_VAR);
            push_str(&mut m, " is set but empty");
            return Err(CatalogError::Configuration(m));
        }
        return Ok(v);
    }
    match cache_dir {
        None => Err(CatalogError::CachePathNotFound),
        Some(d) => {
            let mut p = d;
            push_str(&mut p, "/reloaded-code/models.dev.catalog.v1.cache");
            Ok(p)
        },
    }
}

} // verus!
