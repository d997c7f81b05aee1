use reloaded_code::models::{
    Modality, ModelCatalog, ModelCatalogBuildError, ModelInfo, ProviderIdx, ProviderInfo, ProviderModelSource,
    ProviderSource, ProviderType, AUDIO_INPUT, AUDIO_OUTPUT,
    IMAGE, IMAGE_INPUT, TEXT, TEXT_INPUT, TEXT_OUTPUT, VIDEO_OUTPUT,
};
use reloaded_code::models_dev::error::CatalogError;
use reloaded_code::models_dev::payload::{
    catalog_from_cache_payload, compress_cache_payload, decompress_cache_payload, CachedModelRow,
    CachedProviderRow, CatalogCachePayload,
};
use reloaded_code::models_dev::sources::{
    cache_payload_from_api_entries, provider_type_from_models_dev_npm, ApiModelEntry, ApiModelLimit,
    ApiModelModalities, ApiProviderEntry,
};
use reloaded_code::models_dev::sync::{
    is_transient_status, load_after_request_failure, resolve_cache_path, step_after_response,
    CatalogLoadSource, SyncStep,
};
use reloaded_code::provider_config::{
    api_type_from_str, candidate_config_paths, load_entries, merge_provider_entries, ModelConfig, ProviderConfig,
    ProviderConfigError, ProviderConfigLoader, ConfigSource, DEFAULT_API_TYPE,
};

fn strings(v: &serde_json::Value) -> Vec<String> {
    match v.as_array() {
        Some(items) => items.iter().filter_map(|s| s.as_str().map(|s| s.to_string())).collect(),
        None => Vec::new(),
    }
}

fn u32_field(v: &serde_json::Value, key: &str) -> u32 {
    v.get(key).and_then(|x| x.as_u64()).unwrap_or(0) as u32
}

fn api_entries(json: &[u8]) -> Vec<(String, ApiProviderEntry)> {
    let root: serde_json::Value = serde_json::from_slice(json).expect("valid JSON");
    let mut out = Vec::new();
    for (key, p) in root.as_object().expect("provider map") {
        let mut models = Vec::new();
        if let Some(ms) = p.get("models").and_then(|m| m.as_object()) {
            for (model_key, m) in ms {
                let limit = m.get("limit").filter(|l| l.is_object()).map(|l| ApiModelLimit {
                    context: u32_field(l, "context"),
                    input: u32_field(l, "input"),
                    output: u32_field(l, "output"),
                });
                let modalities = m.get("modalities").filter(|x| x.is_object()).map(|x| ApiModelModalities {
                    input: x.get("input").map(strings).unwrap_or_default(),
                    output: x.get("output").map(strings).unwrap_or_default(),
                });
                models.push((model_key.clone(), ApiModelEntry { limit, modalities }));
            }
        }
        out.push((
            key.clone(),
            ApiProviderEntry {
                npm: p.get("npm").and_then(|x| x.as_str()).map(|s| s.to_string()),
                api: p.get("api").and_then(|x| x.as_str()).map(|s| s.to_string()),
                env: p.get("env").map(strings).unwrap_or_default(),
                models,
            },
        ));
    }
    out
}

fn catalog_from_entries(entries: Vec<(String, ApiProviderEntry)>) -> ModelCatalog {
    let payload = cache_payload_from_api_entries(&entries).expect("payload should build");
    catalog_from_cache_payload(payload).expect("API payload should map")
}

fn catalog(json: &[u8]) -> ModelCatalog {
    catalog_from_entries(api_entries(json))
}

fn provider_snapshot(catalog: &ModelCatalog, key: &str) -> (String, Vec<String>, ProviderType) {
    let p = catalog.lookup_provider(key).expect("provider should exist");
    (p.api_url.clone(), p.env_vars().clone(), p.api_type)
}

fn model_snapshot(catalog: &ModelCatalog, p: &str, m: &str) -> (Modality, u32, u32, Option<u32>, Option<u32>) {
    let model = catalog.lookup_provider_model(p, m).expect("provider model should exist");
    (model.modalities, model.max_input, model.max_output, model.temperature(), model.top_p())
}

fn bits(b: u8) -> Modality {
    Modality::from_bits_retain(b)
}

#[test]
fn cache_payload_maps_single_provider_with_models() {
    let api_json = br#"
    {
        "openai": {
            "npm": "@ai-sdk/openai",
            "api": "https://api.openai.com/v1",
            "env": ["OPENAI_API_KEY"],
            "models": {
                "gpt-4": {
                    "modalities": { "input": ["text"], "output": ["text"] },
                    "limit": { "context": 8192, "output": 4096 }
                }
            }
        }
    }
    "#;
    let payload = cache_payload_from_api_entries(&api_entries(api_json)).expect("payload should build");
    assert_eq!(payload.providers.len(), 1);
    assert_eq!(payload.models.len(), 1);
    assert_eq!(payload.providers[0].provider_key, "openai");
    assert_eq!(payload.providers[0].api_type, ProviderType::OpenAiCompletions);
    assert_eq!(payload.models[0].provider_idx, ProviderIdx::new(0));
    assert_eq!(payload.models[0].model_key, "gpt-4");
    assert_eq!(payload.models[0].modalities_bits, TEXT);
    assert_eq!(payload.models[0].max_input, 8192);
    assert_eq!(payload.models[0].max_output, 4096);
}

#[test]
fn catalog_source_mapping_maps_provider_rows() {
    let api_json = br#"
    {
        "alpha": {
            "npm": "@ai-sdk/openai-responses",
            "api": "https://alpha.example/v1",
            "env": ["ALPHA_KEY"],
            "models": {}
        }
    }
    "#;
    let catalog = catalog(api_json);
    assert_eq!(catalog.provider_count(), 1);
    let provider = catalog.lookup_provider("alpha").expect("alpha provider should exist");
    assert_eq!(provider.api_url, "https://alpha.example/v1");
    assert_eq!(provider.env_vars(), &vec!["ALPHA_KEY".to_string()]);
    assert_eq!(provider.api_type, ProviderType::OpenAiResponses);
}

#[test]
fn catalog_source_mapping_defaults_missing_limits_to_zero() {
    let api_json = br#"
    { "alpha": { "npm": null, "api": null, "env": [], "models": { "m1": {} } } }
    "#;
    let catalog = catalog(api_json);
    assert_eq!(catalog.provider_model_count(), 1);
    let model = catalog.lookup_provider_model("alpha", "m1").expect("alpha/m1 should exist");
    assert_eq!(model.modalities, bits(TEXT));
    assert_eq!(model.max_input, 0);
    assert_eq!(model.max_output, 0);
}

#[test]
fn catalog_source_mapping_uses_limit_input_when_present() {
    let api_json = br#"
    { "alpha": { "npm": null, "api": null, "env": [],
        "models": { "m1": { "limit": { "context": 128000, "input": 124000, "output": 4096 } } } } }
    "#;
    let catalog = catalog(api_json);
    let model = catalog.lookup_provider_model("alpha", "m1").expect("alpha/m1 should exist");
    assert_eq!(model.max_input, 124000);
    assert_eq!(model.max_output, 4096);
}

#[test]
fn catalog_source_mapping_maps_directional_modalities() {
    let api_json = br#"
    { "alpha": { "npm": null, "api": null, "env": [],
        "models": { "m1": {
            "modalities": { "input": ["text", "image", "pdf"], "output": ["text", "audio"] },
            "limit": { "context": 4096, "output": 512 } } } } }
    "#;
    let catalog = catalog(api_json);
    let model = catalog.lookup_provider_model("alpha", "m1").expect("alpha/m1 should exist");
    assert_eq!(model.modalities, bits(TEXT_INPUT | TEXT_OUTPUT | IMAGE_INPUT | AUDIO_OUTPUT));
}

#[test]
fn catalog_source_mapping_maps_pdf_input_to_empty() {
    let api_json = br#"
    { "alpha": { "npm": null, "api": null, "env": [],
        "models": { "m1": { "modalities": { "input": ["pdf"], "output": [] } } } } }
    "#;
    let catalog = catalog(api_json);
    let model = catalog.lookup_provider_model("alpha", "m1").expect("alpha/m1 should exist");
    assert_eq!(model.modalities, Modality::empty());
}

#[test]
fn catalog_source_mapping_falls_back_to_empty_for_unknown_modalities() {
    let api_json = br#"
    { "alpha": { "npm": null, "api": null, "env": [],
        "models": { "m1": { "modalities": { "input": ["binary"], "output": ["embedding"] } } } } }
    "#;
    let catalog = catalog(api_json);
    let model = catalog.lookup_provider_model("alpha", "m1").expect("alpha/m1 should exist");
    assert_eq!(model.modalities, Modality::empty());
}

#[test]
fn catalog_source_mapping_keeps_duplicate_model_ids_per_provider() {
    let api_json = br#"
    {
        "alpha": { "npm": "@ai-sdk/openai", "api": null, "env": [],
            "models": { "m1": { "modalities": { "input": ["image"], "output": ["text"] },
                                "limit": { "context": 4096, "output": 512 } } } },
        "beta": { "npm": "@ai-sdk/anthropic", "api": null, "env": [],
            "models": { "m1": { "modalities": { "input": ["audio"], "output": ["video"] },
                                "limit": { "context": 8192, "output": 256 } } } }
    }
    "#;
    let catalog = catalog(api_json);
    assert_eq!(catalog.provider_model_count(), 2);
    let alpha_model = catalog.lookup_provider_model("alpha", "m1").expect("alpha/m1 should exist");
    assert_eq!(alpha_model.max_input, 4096);
    assert_eq!(alpha_model.max_output, 512);
    assert_eq!(alpha_model.modalities, bits(IMAGE_INPUT | TEXT_OUTPUT));
    let beta_model = catalog.lookup_provider_model("beta", "m1").expect("beta/m1 should exist");
    assert_eq!(beta_model.max_input, 8192);
    assert_eq!(beta_model.max_output, 256);
    assert_eq!(beta_model.modalities, bits(AUDIO_INPUT | VIDEO_OUTPUT));
}

#[test]
fn catalog_source_mapping_keeps_same_data_for_different_input_key_order() {
    let alpha = br#"{ "alpha": { "npm": "@ai-sdk/openai", "api": null, "env": [],
        "models": { "m1": { "limit": { "context": 1024, "output": 256 } } } } }"#;
    let beta = br#"{ "beta": { "npm": "@ai-sdk/anthropic", "api": null, "env": [],
        "models": { "m2": { "limit": { "context": 2048, "output": 512 } } } } }"#;
    let mut order_a = api_entries(beta);
    order_a.extend(api_entries(alpha));
    let mut order_b = api_entries(alpha);
    order_b.extend(api_entries(beta));
    let catalog_a = catalog_from_entries(order_a);
    let catalog_b = catalog_from_entries(order_b);

    assert_eq!(catalog_a.provider_count(), catalog_b.provider_count());
    assert_eq!(catalog_a.provider_model_count(), catalog_b.provider_model_count());
    assert_eq!(catalog_a.model_config_count(), catalog_b.model_config_count());
    assert_eq!(provider_snapshot(&catalog_a, "alpha"), provider_snapshot(&catalog_b, "alpha"));
    assert_eq!(provider_snapshot(&catalog_a, "beta"), provider_snapshot(&catalog_b, "beta"));
    assert_eq!(model_snapshot(&catalog_a, "alpha", "m1"), model_snapshot(&catalog_b, "alpha", "m1"));
    assert_eq!(model_snapshot(&catalog_a, "beta", "m2"), model_snapshot(&catalog_b, "beta", "m2"));
}

#[test]
fn npm_packages_map_to_provider_types() {
    assert_eq!(provider_type_from_models_dev_npm(Some("@ai-sdk/openai")), ProviderType::OpenAiCompletions);
    assert_eq!(provider_type_from_models_dev_npm(Some("@ai-sdk/amazon-bedrock")), ProviderType::Bedrock);
    assert_eq!(provider_type_from_models_dev_npm(Some("@openrouter/ai-sdk-provider")), ProviderType::OpenRouter);
    assert_eq!(provider_type_from_models_dev_npm(Some("@ai-sdk/antigravity")), ProviderType::Antigravity);
    assert_eq!(provider_type_from_models_dev_npm(Some("@unknown/package")), ProviderType::Unknown);
    assert_eq!(provider_type_from_models_dev_npm(None), ProviderType::Unknown);
}

fn sample_payload() -> CatalogCachePayload {
    CatalogCachePayload {
        providers: vec![CachedProviderRow {
            provider_key: "openai".to_string(),
            api_url: "https://api.openai.com/v1".to_string(),
            env_vars: vec!["OPENAI_API_KEY".to_string()],
            api_type: ProviderType::OpenAiCompletions,
        }],
        models: vec![CachedModelRow {
            provider_idx: ProviderIdx::new(0),
            model_key: "gpt-4".to_string(),
            modalities_bits: TEXT,
            max_input: 8192,
            max_output: 4096,
            temperature: Some(0.7f32.to_bits()),
            top_p: Some(0.9f32.to_bits()),
        }],
    }
}

#[test]
fn catalog_from_payload_reconstructs_provider() {
    let catalog = catalog_from_cache_payload(sample_payload()).expect("catalog build should succeed");
    let provider = catalog.lookup_provider("openai").expect("provider should exist");
    assert_eq!(provider.api_url, "https://api.openai.com/v1");
    assert_eq!(provider.api_type, ProviderType::OpenAiCompletions);
}

#[test]
fn catalog_from_payload_reconstructs_model() {
    let catalog = catalog_from_cache_payload(sample_payload()).expect("catalog build should succeed");
    let model = catalog.lookup_provider_model("openai", "gpt-4").expect("model should exist");
    assert_eq!(model.max_input, 8192);
    assert_eq!(model.max_output, 4096);
    assert_eq!(model.modalities, bits(TEXT));
    assert_eq!(model.temperature(), Some(0.7f32.to_bits()));
}

#[test]
fn catalog_from_payload_rejects_out_of_range_provider_idx() {
    let payload = CatalogCachePayload {
        providers: vec![CachedProviderRow {
            provider_key: "test".to_string(),
            api_url: "".to_string(),
            env_vars: vec![],
            api_type: ProviderType::Unknown,
        }],
        models: vec![CachedModelRow {
            provider_idx: ProviderIdx::new(999),
            model_key: "model".to_string(),
            modalities_bits: TEXT,
            max_input: 0,
            max_output: 0,
            temperature: None,
            top_p: None,
        }],
    };
    let result = catalog_from_cache_payload(payload);
    assert!(matches!(
        result,
        Err(CatalogError::ModelCatalogBuild(ModelCatalogBuildError::ProviderIdxOutOfRangeForModel { .. }))
    ));
}

#[test]
fn catalog_shares_equal_model_configurations() {
    let api_json = br#"{ "a": { "npm": null, "api": null, "env": [],
        "models": { "x": {}, "y": {}, "z": { "limit": { "context": 5, "output": 1 } } } } }"#;
    let catalog = catalog(api_json);
    assert_eq!(catalog.provider_model_count(), 3);
    assert_eq!(catalog.model_config_count(), 2);
    assert!(catalog.lookup_provider_model("a", "missing").is_none());
    assert!(catalog.lookup_provider("missing").is_none());
}

#[test]
fn cache_compression_round_trips() {
    let data = b"provider rows provider rows provider rows".to_vec();
    let compressed = compress_cache_payload(&data).unwrap();
    assert_eq!(decompress_cache_payload(&compressed, data.len()).unwrap(), data);
    assert!(matches!(
        decompress_cache_payload(&compressed, data.len() + 5),
        Err(CatalogError::CacheFormat(_))
    ));
}

#[test]
fn transient_status_detection_matches_retryable_responses() {
    assert!(is_transient_status(429));
    assert!(is_transient_status(503));
    assert!(!is_transient_status(404));
}

#[test]
fn sync_steps_follow_status_and_cache() {
    assert_eq!(
        step_after_response(200, "200 OK", false, None),
        SyncStep::UseResponse(CatalogLoadSource::Downloaded)
    );
    assert_eq!(
        step_after_response(304, "304 Not Modified", true, None),
        SyncStep::LoadCache(CatalogLoadSource::NotModifiedCache)
    );
    assert_eq!(
        step_after_response(304, "304 Not Modified", false, None),
        SyncStep::Fail(CatalogError::CacheFormat("received 304 but no cached payload is available".to_string()))
    );
    assert_eq!(
        step_after_response(503, "503 Service Unavailable", true, None),
        SyncStep::LoadCache(CatalogLoadSource::FallbackCache)
    );
    assert_eq!(
        step_after_response(404, "404 Not Found", true, None),
        SyncStep::Fail(CatalogError::Configuration("unexpected catalog sync status: 404 Not Found".to_string()))
    );
    assert_eq!(
        load_after_request_failure("refused".to_string(), false, None),
        SyncStep::Fail(CatalogError::Reqwest("refused".to_string()))
    );
    assert_eq!(
        load_after_request_failure("refused".to_string(), true, None),
        SyncStep::LoadCache(CatalogLoadSource::FallbackCache)
    );
    assert!(CatalogLoadSource::FallbackCache.is_cached());
    assert!(CatalogLoadSource::FallbackCache.is_fallback());
    assert!(CatalogLoadSource::Downloaded.is_fresh());
}

#[test]
fn cache_path_prefers_override() {
    assert_eq!(resolve_cache_path(Some("/x.cache".to_string()), Some("/c".to_string())), Ok("/x.cache".to_string()));
    assert_eq!(
        resolve_cache_path(Some(String::new()), None),
        Err(CatalogError::Configuration("RELOADED_CODE_MODELS_DEV_CACHE_PATH is set but empty".to_string()))
    );
    assert_eq!(
        resolve_cache_path(None, Some("/home/u/.cache".to_string())),
        Ok("/home/u/.cache/reloaded-code/models.dev.catalog.v1.cache".to_string())
    );
    assert_eq!(resolve_cache_path(None, None), Err(CatalogError::CachePathNotFound));
}

// ---------------------------------------------------------------------------
// Provider configuration
// ---------------------------------------------------------------------------

fn yaml_strings(v: &serde_yaml::Value) -> Vec<String> {
    match v.as_sequence() {
        Some(items) => items.iter().filter_map(|s| s.as_str().map(|s| s.to_string())).collect(),
        None => Vec::new(),
    }
}

fn parse_providers(yaml: &str) -> Vec<(String, ProviderConfig)> {
    let root: serde_yaml::Value = serde_yaml::from_str(yaml).expect("valid YAML");
    let mut out = Vec::new();
    if let Some(map) = root.as_mapping() {
        for (k, p) in map {
            let models = p.get("models").and_then(|m| m.as_mapping()).map(|ms| {
                ms.iter()
                    .map(|(mk, m)| {
                        (
                            mk.as_str().unwrap().to_string(),
                            ModelConfig {
                                max_input: m.get("max_input").and_then(|x| x.as_u64()).unwrap() as u32,
                                max_output: m.get("max_output").and_then(|x| x.as_u64()).unwrap() as u32,
                                modalities: m
                                    .get("modalities")
                                    .map(yaml_strings)
                                    .unwrap_or_else(|| vec!["text".to_string()]),
                                default_temperature: m
                                    .get("default_temperature")
                                    .and_then(|x| x.as_f64())
                                    .map(|f| (f as f32).to_bits()),
                                default_top_p: m.get("default_top_p").and_then(|x| x.as_f64()).map(|f| (f as f32).to_bits()),
                            },
                        )
                    })
                    .collect()
            });
            out.push((
                k.as_str().unwrap().to_string(),
                ProviderConfig {
                    api_url: p.get("api_url").and_then(|x| x.as_str()).map(|s| s.to_string()),
                    api_type: p.get("api_type").and_then(|x| x.as_str()).map(|s| s.to_string()),
                    env: p.get("env").map(yaml_strings),
                    models,
                },
            ));
        }
    }
    out
}

fn load_yaml_sources(sources: &[&str]) -> Result<reloaded_code::provider_config::LoadedProviderConfig, ProviderConfigError> {
    let mut entries = Vec::new();
    for s in sources {
        entries.extend(parse_providers(s));
    }
    load_entries(entries)
}

fn config_of<'a>(loaded: &'a reloaded_code::provider_config::LoadedProviderConfig, key: &str) -> &'a ProviderConfig {
    loaded.providers.get(key).expect("provider present")
}

#[test]
fn default_api_type_is_openai_compatible() {
    assert_eq!(DEFAULT_API_TYPE, "openai-compatible");
    assert_eq!(api_type_from_str(DEFAULT_API_TYPE), ProviderType::OpenAiCompletions);
}

#[test]
fn api_type_maps_to_correct_provider_type() {
    assert_eq!(api_type_from_str("openai"), ProviderType::OpenAiCompletions);
    assert_eq!(api_type_from_str("openai-responses"), ProviderType::OpenAiResponses);
    assert_eq!(api_type_from_str("ollama"), ProviderType::Ollama);
    assert_eq!(api_type_from_str("cohere"), ProviderType::Cohere);
    assert_eq!(api_type_from_str("totally-fake-provider"), ProviderType::Unknown);
    assert_eq!(api_type_from_str(""), ProviderType::Unknown);
}

#[test]
fn load_single_file() {
    let loaded = load_yaml_sources(&["
my-llm:
  api_url: https://api.example.com/v1
  env:
    - EXAMPLE_API_KEY
  models:
    m1:
      max_input: 128000
      max_output: 8192
"])
    .expect("load");
    assert_eq!(loaded.providers.len(), 1);
    assert_eq!(loaded.providers.get_index(0).unwrap().0, "my-llm");
}

#[test]
fn load_empty_produces_no_providers() {
    let loaded = load_entries(Vec::new()).expect("load");
    assert!(loaded.providers.is_empty());
    let (ps, ms) = loaded.to_catalog_sources().expect("catalog sources");
    assert!(ps.is_empty());
    assert!(ms.is_empty());
}

#[test]
fn later_file_overrides_same_provider_key() {
    let loaded = load_yaml_sources(&[
        "
shared:
  api_url: https://old.example.com/v1
  models:
    m1: { max_input: 4096, max_output: 2048 }
",
        "
shared:
  api_url: https://new.example.com/v1
  models:
    m2: { max_input: 128000, max_output: 8192 }
",
    ])
    .expect("load");
    let config = config_of(&loaded, "shared");
    assert_eq!(config.api_url.as_deref(), Some("https://new.example.com/v1"));
    let models = config.models.as_ref().expect("models");
    assert!(!models.iter().any(|(k, _)| k == "m1"));
    assert!(models.iter().any(|(k, _)| k == "m2"));
}

#[test]
fn earlier_keys_preserved_when_not_in_later_source() {
    let loaded = load_yaml_sources(&[
        "
alpha:
  api_url: https://alpha.example.com/v1
  models:
    m1: { max_input: 8192, max_output: 4096 }
",
        "
beta:
  api_url: https://beta.example.com/v1
  models:
    m2: { max_input: 128000, max_output: 8192 }
",
    ])
    .expect("load");
    assert_eq!(loaded.providers.len(), 2);
    assert!(loaded.providers.iter().any(|(k, _)| k == "alpha"));
    assert!(loaded.providers.iter().any(|(k, _)| k == "beta"));
}

#[test]
fn programmatic_entry_overrides_file() {
    let mut entries = parse_providers("
my-llm:
  api_url: https://file.example.com/v1
  models:
    m1: { max_input: 4096, max_output: 2048 }
");
    let mut loader = ProviderConfigLoader::new();
    loader.add_path("providers.yaml".to_string());
    loader.add_provider(
        "my-llm",
        ProviderConfig {
            api_url: Some("https://programmatic.example.com/v1".into()),
            api_type: Some("anthropic".into()),
            env: None,
            models: Some(
                vec![(
                    "m2".to_string(),
                    ModelConfig {
                        max_input: 8192,
                        max_output: 4096,
                        modalities: vec!["text".to_string()],
                        default_temperature: None,
                        default_top_p: None,
                    },
                )]
                .into_iter()
                .collect(),
            ),
        },
    );
    for source in loader.into_sources() {
        if let ConfigSource::Programmatic { key, config } = source {
            entries.push((key, config));
        }
    }
    let loaded = load_entries(entries).expect("load");
    let config = config_of(&loaded, "my-llm");
    assert_eq!(config.api_url.as_deref(), Some("https://programmatic.example.com/v1"));
    assert_eq!(config.api_type.as_deref(), Some("anthropic"));
}

#[test]
fn to_catalog_sources_produces_correct_types() {
    let loaded = load_yaml_sources(&["
my-llm:
  api_url: https://api.example.com/v1
  api_type: anthropic
  env:
    - MY_LLM_API_KEY
  models:
    sonnet-3:
      max_input: 200000
      max_output: 8192
      modalities: [text, image]
      default_temperature: 0.7
      default_top_p: 0.95
"])
    .expect("load");
    let (providers, models) = loaded.to_catalog_sources().expect("catalog sources");
    assert_eq!(providers.len(), 1);
    assert_eq!(providers[0].provider_key, "my-llm");
    assert_eq!(providers[0].provider.api_type, ProviderType::Anthropic);
    assert_eq!(providers[0].provider.api_url, "https://api.example.com/v1");
    assert_eq!(providers[0].provider.env_vars, vec!["MY_LLM_API_KEY"]);
    assert_eq!(models.len(), 1);
    assert_eq!(models[0].model_key, "sonnet-3");
    assert_eq!(models[0].model.max_input, 200000);
    assert_eq!(models[0].model.max_output, 8192);
    assert_eq!(models[0].model.modalities, bits(TEXT | IMAGE));
    assert_eq!(models[0].model.temperature, Some(0.7f32.to_bits()));
    assert_eq!(models[0].model.top_p, Some(0.95f32.to_bits()));
}

#[test]
fn to_catalog_sources_provider_idx_is_consistent() {
    let loaded = load_yaml_sources(&["
p0:
  api_url: https://p0.example.com/v1
  models:
    a: { max_input: 1, max_output: 1 }
p1:
  api_url: https://p1.example.com/v1
  models:
    b: { max_input: 1, max_output: 1 }
    c: { max_input: 1, max_output: 1 }
"])
    .expect("load");
    let (providers, models) = loaded.to_catalog_sources().expect("catalog sources");
    assert_eq!(providers.len(), 2);
    assert_eq!(models.len(), 3);
    assert_eq!(models[0].provider_idx, ProviderIdx::new(0));
    assert_eq!(models[1].provider_idx, ProviderIdx::new(1));
    assert_eq!(models[2].provider_idx, ProviderIdx::new(1));
}

#[test]
fn to_catalog_sources_default_api_type_is_openai_compatible() {
    let loaded = load_yaml_sources(&["
p:
  api_url: https://p.example.com/v1
  models:
    a: { max_input: 1, max_output: 1 }
"])
    .expect("load");
    let (providers, _) = loaded.to_catalog_sources().expect("catalog sources");
    assert_eq!(providers[0].provider.api_type, ProviderType::OpenAiCompletions);
}

#[test]
fn load_rejects_unrecognized_api_type() {
    let err = load_yaml_sources(&["
p:
  api_url: https://p.example.com/v1
  api_type: nonsense
  models:
    a: { max_input: 1, max_output: 1 }
"])
    .unwrap_err();
    assert!(matches!(err, ProviderConfigError::UnrecognizedApiType { .. }), "error was: {err:?}");
}

#[test]
fn load_rejects_unrecognized_modality() {
    let err = load_yaml_sources(&["
p:
  api_url: https://p.example.com/v1
  models:
    a: { max_input: 1, max_output: 1, modalities: [text, smell] }
"])
    .unwrap_err();
    match err {
        ProviderConfigError::UnrecognizedModality { provider_key, model_key, value } => {
            assert_eq!(provider_key, "p");
            assert_eq!(model_key, "a");
            assert_eq!(value, "smell");
        }
        other => panic!("unexpected error: {other:?}"),
    }
}

#[test]
fn load_rejects_empty_models_map() {
    let err = load_yaml_sources(&["
p:
  api_url: https://p.example.com/v1
  models: {}
"])
    .unwrap_err();
    assert!(err.to_string().contains("models"), "error was: {err:?}");
}

#[test]
fn load_rejects_invalid_api_type_even_when_api_url_missing() {
    let err = load_yaml_sources(&["
p:
  api_type: nonsense
  models:
    a: { max_input: 1, max_output: 1 }
"])
    .unwrap_err();
    assert!(matches!(err, ProviderConfigError::UnrecognizedApiType { .. }), "error was: {err:?}");
}

#[test]
fn load_rejects_missing_api_url_for_non_ollama() {
    let err = load_yaml_sources(&["
p:
  models:
    a: { max_input: 1, max_output: 1 }
"])
    .unwrap_err();
    assert!(err.to_string().contains("api_url"), "error was: {err:?}");
    let ok = load_yaml_sources(&["
local:
  api_type: ollama
  models:
    a: { max_input: 1, max_output: 1 }
"]);
    assert!(ok.is_ok());
}

#[test]
fn merge_keeps_first_position_and_last_value() {
    let cfg = |url: &str| ProviderConfig { api_url: Some(url.to_string()), api_type: None, env: None, models: None };
    let merged = merge_provider_entries(vec![
        ("a".to_string(), cfg("1")),
        ("b".to_string(), cfg("2")),
        ("a".to_string(), cfg("3")),
    ]);
    assert_eq!(merged.len(), 2);
    let (k0, v0) = merged.get_index(0).unwrap();
    assert_eq!(k0, "a");
    assert_eq!(v0.api_url.as_deref(), Some("3"));
    assert_eq!(merged.get_index(1).unwrap().0, "b");
}

#[test]
fn candidate_config_paths_lists_global_then_local() {
    assert_eq!(
        candidate_config_paths(Some("/home/u/.config")),
        vec!["/home/u/.config/reloaded-code/providers.yaml".to_string(), ".reloaded/providers.yaml".to_string()]
    );
    assert_eq!(
        candidate_config_paths(Some("/cfg/")),
        vec!["/cfg/reloaded-code/providers.yaml".to_string(), ".reloaded/providers.yaml".to_string()]
    );
    assert_eq!(candidate_config_paths(None), vec![".reloaded/providers.yaml".to_string()]);
}

fn info(url: &str) -> ProviderInfo {
    ProviderInfo { api_url: url.to_string(), env_vars: vec![], api_type: ProviderType::OpenAiCompletions }
}

fn model(max_input: u32) -> ModelInfo {
    ModelInfo { modalities: Modality::from_bits_retain(TEXT), max_input, max_output: 10, temperature: None, top_p: None }
}

#[test]
fn lookups_find_every_built_entry_and_the_first_of_duplicates() {
    let providers = vec![
        ProviderSource::new("a".to_string(), info("https://a")),
        ProviderSource::new("b".to_string(), info("https://b")),
        ProviderSource::new("a".to_string(), info("https://a2")),
    ];
    let models = vec![
        ProviderModelSource::new(ProviderIdx::new(0), "m".to_string(), model(1)),
        ProviderModelSource::new(ProviderIdx::new(1), "m".to_string(), model(2)),
        ProviderModelSource::new(ProviderIdx::new(1), "m".to_string(), model(3)),
    ];
    let catalog = ModelCatalog::build(providers, &models).unwrap();
    assert_eq!(catalog.lookup_provider("a").unwrap().api_url, "https://a");
    assert_eq!(catalog.lookup_provider("b").unwrap().api_url, "https://b");
    assert!(catalog.lookup_provider("c").is_none());
    assert_eq!(catalog.lookup_provider_model("a", "m").unwrap().max_input, 1);
    assert_eq!(catalog.lookup_provider_model("b", "m").unwrap().max_input, 2);
    assert!(catalog.lookup_provider_model("b", "x").is_none());
}

#[test]
fn loaded_config_sources_always_build_a_catalog() {
    let loaded = load_yaml_sources(&["
p0:
  api_url: https://p0.example.com/v1
  models:
    a: { max_input: 1, max_output: 1 }
p1:
  api_type: ollama
  models:
    b: { max_input: 2, max_output: 1 }
"])
    .expect("load");
    let (providers, models) = loaded.to_catalog_sources().expect("catalog sources");
    let catalog = ModelCatalog::build(providers, &models).expect("validated sources build");
    assert_eq!(catalog.lookup_provider_model("p1", "b").unwrap().max_input, 2);
}

#[test]
fn mapped_api_entries_always_build_a_catalog() {
    let api_json = br#"{"x":{"npm":"@ai-sdk/openai","env":["X_KEY"],"models":{"m1":{"limit":{"context":100,"output":5}}}},"y":{"models":{}}}"#;
    let payload = cache_payload_from_api_entries(&api_entries(api_json)).expect("payload");
    let catalog = catalog_from_cache_payload(payload).expect("mapped rows build");
    assert_eq!(catalog.provider_count(), 2);
    assert!(catalog.lookup_provider_model("x", "m1").is_some());
}

#[test]
fn provider_lookups_ignore_provider_order() {
    let one = ModelCatalog::build(
        vec![ProviderSource::new("a".to_string(), info("https://a")), ProviderSource::new("b".to_string(), info("https://b"))],
        &Vec::new(),
    )
    .unwrap();
    let two = ModelCatalog::build(
        vec![ProviderSource::new("b".to_string(), info("https://b")), ProviderSource::new("a".to_string(), info("https://a"))],
        &Vec::new(),
    )
    .unwrap();
    for key in ["a", "b", "c"] {
        assert_eq!(one.lookup_provider(key), two.lookup_provider(key));
    }
}
