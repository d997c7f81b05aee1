//! The cached form of the catalog: plain provider and model rows, compressed
//! with zstd, and the rebuilding of a catalog from them.
//!
//! Encoding the rows to bytes and back is the caller's part.
use crate::models::{
    build_error, reversed, Modality, ModelCatalog, ModelCatalogBuildError, ModelInfo, ProviderIdx,
    ProviderInfo, ProviderModelSource, ProviderSource, ProviderType, infos,
};
use crate::models_dev::error::CatalogError;
use crate::text::owned;
use vstd::prelude::*;

verus! {

/// A provider row of the cache.
#[derive(Debug, Clone, PartialEq, Eq)]
pub struct CachedProviderRow {
    /// The provider's lookup key.
    pub provider_key: String,
    /// Base API URL.
    pub api_url: String,
    /// Environment variables that can hold the credential.
    pub env_vars: Vec<String>,
    /// The API shape.
    pub api_type: ProviderType,
}

/// A model row of the cache.
#[derive(Debug, Clone, PartialEq, Eq)]
pub struct CachedModelRow {
    /// Position of the model's provider among the provider rows.
    pub provider_idx: ProviderIdx,
    /// The model's lookup key within its provider.
    pub model_key: String,
    /// Modality flag bits.
    pub modalities_bits: u8,
    /// Maximum input tokens.
    pub max_input: u32,
    /// Maximum output tokens.
    pub max_output: u32,
    /// Default temperature (bits of an `f32`).
    pub temperature: Option<u32>,
    /// Default top-p (bits of an `f32`).
    pub top_p: Option<u32>,
}

/// The cached catalog: provider rows in catalog order and model rows that
/// point at them.
#[derive(Debug, Clone, PartialEq, Eq)]
pub struct CatalogCachePayload {
    pub providers: Vec<CachedProviderRow>,
    pub models: Vec<CachedModelRow>,
}

/// The provider source a provider row stands for.
pub open spec fn provider_of_row(r: CachedProviderRow) -> ProviderSource {
    ProviderSource {
        provider_key: r.provider_key,
        provider: ProviderInfo { api_url: r.api_url, env_vars: r.env_vars, api_type: r.api_type },
    }
}

/// The model source a model row stands for.
pub open spec fn model_of_row(r: CachedModelRow) -> ProviderModelSource {
    ProviderModelSource {
        provider_idx: r.provider_idx,
        model_key: r.model_key,
        model: ModelInfo {
            modalities: Modality::spec_from_bits(r.modalities_bits),
            max_input: r.max_input,
            max_output: r.max_output,
            temperature: r.temperature,
            top_p: r.top_p,
        },
    }
}

/// Rebuilds a catalog from cached rows; rows the catalog refuses (a model
/// pointing past the provider rows, too many providers) give the build
/// error.
pub fn catalog_from_cache_payload(payload: CatalogCachePayload) -> (r: Result<ModelCatalog, CatalogError>)
    ensures
        ({
            let ps = payload.providers@.map_values(|p: CachedProviderRow| provider_of_row(p));
            let ms = payload.models@.map_values(|m: CachedModelRow| model_of_row(m));
            match build_error(ps, ms) {
                Some(e) => r == Err::<ModelCatalog, CatalogError>(CatalogError::ModelCatalogBuild(e)),
                None => r matches Ok(c) && c.providers() == ps && c.models() == ms
                    && c.config_count() == infos(ms).to_set().len(),
            }
        }),
{
    let ghost prow = payload.providers@;
    let ghost mrow = payload.models@;
    let mut prev = reversed(payload.providers);
    let n = prev.len();
    let mut provider_sources: Vec<ProviderSource> = Vec::new();
    let mut i: usize = 0;
    while i < n
        invariant
            n == prow.len(),
            i <= n,
            prev@ == prow.skip(i as int).reverse(),
            provider_sources@ == prow.take(i as int).map_values(|p: CachedProviderRow| provider_of_row(p)),
        decreases n - i,
    {
        let row = prev.pop().unwrap();
        proof {
            assert(row == prow[i as int]);
            assert(prev@ =~= prow.skip(i + 1).reverse());
        }
        provider_sources.push(ProviderSource {
            provider_key: row.provider_key,
            provider: ProviderInfo { api_url: row.api_url, env_vars: row.env_vars, api_type: row.api_type },
        });
        proof {
            assert(provider_sources@ =~= prow.take(i + 1).map_values(|p: CachedProviderRow| provider_of_row(p)));
        }
        i = i + 1;
    }
    assert(prow.take(n as int) =~= prow);
    let mut mrev = reversed(payload.models);
    let mn = mrev.len();
    let mut model_sources: Vec<ProviderModelSource> = Vec::new();
    let mut j: usize = 0;
    while j < mn
        invariant
            mn == mrow.len(),
            j <= mn,
            mrev@ == mrow.skip(j as int).reverse(),
            model_sources@ == mrow.take(j as int).map_values(|m: CachedModelRow| model_of_row(m)),
        decreases mn - j,
    {
        let row = mrev.pop().unwrap();
        proof {
            assert(row == mrow[j as int]);
            assert(mrev@ =~= mrow.skip(j + 1).reverse());
        }
        let model = ModelInfo {
            modalities: Modality::from_bits_retain(row.modalities_bits),
            max_input: row.max_input,
            max_output: row.max_output,
            temperature: row.temperature,
            top_p: row.top_p,
        };
        model_sources.push(ProviderModelSource { provider_idx: row.provider_idx, model_key: row.model_key, model });
        proof {
            assert(model_sources@ =~= mrow.take(j + 1).map_values(|m: CachedModelRow| model_of_row(m)));
        }
        j = j + 1;
    }
    assert(mrow.take(mn as int) =~= mrow);
    match ModelCatalog::build(provider_sources, &model_sources) {
        Ok(c) => Ok(c),
        Err(e) => Err(CatalogError::ModelCatalogBuild(e)),
    }
}

/// What `zstd::bulk::decompress` gives for `data` with room for `capacity`
/// bytes: the decompressed bytes, or `None` when it fails.
pub uninterp spec fn zstd_decompressed(data: Seq<u8>, capacity: nat) -> Option<Seq<u8>>;

/// What `zstd::bulk::compress` gives for `data` at `level`: the compressed
/// bytes, or `None` when it fails.
pub uninterp spec fn zstd_compressed(data: Seq<u8>, level: int) -> Option<Seq<u8>>;

/// Decompresses a zstd block (`zstd::bulk::decompress`).
///
/// Trusted: the result is the named decompression; on success it holds at
/// most `capacity` bytes, as the function documents. It reserves `capacity`
/// bytes up front (`Vec::with_capacity`), which panics above `isize::MAX`,
/// hence the bound; whether a reservation below it can be met depends on the
/// machine and is not stated.
#[verifier::external_body]
fn zstd_decompress(data: &[u8], capacity: usize) -> (r: Result<Vec<u8>, String>)
    requires
        capacity <= isize::MAX,
    ensures
        match r {
            Ok(v) => zstd_decompressed(data@, capacity as nat) == Some(v@) && v@.len() <= capacity,
            Err(_) => zstd_decompressed(data@, capacity as nat) is None,
        },
{
    zstd::bulk::decompress(data, capacity).map_err(|e| e.to_string())
}

/// Compresses a zstd block (`zstd::bulk::compress`).
///
/// Trusted: the result is the named compression, and zstd being lossless,
/// decompressing it with room for the input's length gives the input back.
#[verifier::external_body]
fn zstd_compress(data: &[u8], level: i32) -> (r: Result<Vec<u8>, String>)
    ensures
        match r {
            Ok(v) => zstd_compressed(data@, level as int) == Some(v@) && zstd_decompressed(
                v@,
                data@.len(),
            ) == Some(data@),
            Err(_) => zstd_compressed(data@, level as int) is None,
        },
{
    zstd::bulk::compress(data, level).map_err(|e| e.to_string())
}

/// The zstd level the cache is written with.
pub const CACHE_COMPRESSION_LEVEL: i32 = 17;

/// Compresses the encoded rows for the cache file.
pub fn compress_cache_payload(encoded: &[u8]) -> (r: Result<Vec<u8>, CatalogError>)
    ensures
        match zstd_compressed(encoded@, CACHE_COMPRESSION_LEVEL as int) {
            Some(c) => r matches Ok(v) && v@ == c && zstd_decompressed(c, encoded@.len()) == Some(encoded@),
            None => r matches Err(CatalogError::Zstd(_)),
        },
{
    match zstd_compress(encoded, CACHE_COMPRESSION_LEVEL) {
        Ok(v) => Ok(v),
        Err(m) => Err(CatalogError::Zstd(m)),
    }
}

/// Decompresses the cached rows, which must have exactly the length the
/// cache file records; that length must be one a buffer can reserve.
pub fn decompress_cache_payload(compressed: &[u8], expected_len: usize) -> (r: Result<Vec<u8>, CatalogError>)
    requires
        expected_len <= isize::MAX,
    ensures
        match zstd_decompressed(compressed@, expected_len as nat) {
            None => r matches Err(CatalogError::Zstd(_)),
            Some(d) => if d.len() == expected_len {
                r matches Ok(v) && v@ == d
            } else {
                r matches Err(CatalogError::CacheFormat(m)) && m@
                    == "cache payload length mismatch after decompression"@
            },
        },
        r matches Ok(v) ==> cache_decoding(compressed@, expected_len as nat) == Some(v@),
{
    let decoded = match zstd_decompress(compressed, expected_len) {
        Ok(v) => v,
        Err(m) => return Err(CatalogError::Zstd(m)),
    };
    if decoded.len() != expected_len {
        return Err(CatalogError::CacheFormat(owned("cache payload length mismatch after decompression")));
    }
    Ok(decoded)
}

/// What reading the cache makes of compressed rows expected to be
/// `expected_len` bytes long: the decompressed bytes when decompression
/// succeeds with exactly that length.
pub open spec fn cache_decoding(compressed: Seq<u8>, expected_len: nat) -> Option<Seq<u8>> {
    match zstd_decompressed(compressed, expected_len) {
        Some(d) => if d.len() == expected_len {
            Some(d)
        } else {
            None
        },
        None => None,
    }
}

/// Rows compressed for the cache (whose decompression
/// [`compress_cache_payload`] guarantees) come back unchanged when the cache
/// is read with the length recorded for them.
pub proof fn lemma_cache_round_trip(encoded: Seq<u8>, compressed: Seq<u8>)
    requires
        zstd_decompressed(compressed, encoded.len()) == Some(encoded),
    ensures
        cache_decoding(compressed, encoded.len()) == Some(encoded),
{
}

} // verus!
