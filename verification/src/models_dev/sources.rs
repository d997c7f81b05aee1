//! Mapping models.dev provider and model metadata into cache rows.
//!
//! Missing limits count as `0`; modalities come from the directional
//! `modalities.input[]` / `modalities.output[]` labels, unknown labels being
//! ignored; unknown npm packages give [`ProviderType::Unknown`]. Models stay
//! attached to their provider.
//!
//! Parsing the JSON is the caller's part: each provider entry arrives with
//! its key, in whatever order the parsed map was walked.
use crate::models::{
    build_error, lemma_indices_in_range,
    clone_strings, Modality, ModelInfo, ProviderIdx, ProviderType, MAX_PROVIDERS, AUDIO_INPUT,
    AUDIO_OUTPUT, IMAGE_INPUT, IMAGE_OUTPUT, TEXT, TEXT_INPUT, TEXT_OUTPUT, VIDEO_INPUT,
    VIDEO_OUTPUT, ModelCatalogBuildError,
};
use crate::models_dev::error::CatalogError;
use crate::models_dev::payload::{model_of_row, provider_of_row, CachedModelRow, CachedProviderRow, CatalogCachePayload};
use crate::text::{str_eq, views};
use vstd::prelude::*;

verus! {

/// Token limits of a model.
#[derive(Debug, Clone, Copy, PartialEq, Eq, Default)]
pub struct ApiModelLimit {
    pub context: u32,
    pub input: u32,
    pub output: u32,
}

/// Directional modality labels of a model.
#[derive(Debug, Clone, PartialEq, Eq, Default)]
pub struct ApiModelModalities {
    pub input: Vec<String>,
    pub output: Vec<String>,
}

/// A model entry.
#[derive(Debug, Clone, PartialEq, Eq, Default)]
pub struct ApiModelEntry {
    pub limit: Option<ApiModelLimit>,
    pub modalities: Option<ApiModelModalities>,
}

/// A provider entry.
#[derive(Debug, Clone, PartialEq, Eq, Default)]
pub struct ApiProviderEntry {
    /// The provider's AI SDK npm package.
    pub npm: Option<String>,
    /// Base API URL.
    pub api: Option<String>,
    /// Environment variables that can hold the credential.
    pub env: Vec<String>,
    /// Models by model key.
    pub models: Vec<(String, ApiModelEntry)>,
}

/// The provider type an npm package stands for.
pub open spec fn npm_provider_type(npm: Option<Seq<char>>) -> ProviderType {
    match npm {
        Some(p) => if p == "@ai-sdk/openai"@ || p == "@ai-sdk/openai-compatible"@ {
            ProviderType::OpenAiCompletions
        } else if p == "@ai-sdk/openai-responses"@ {
            ProviderType::OpenAiResponses
        } else if p == "@ai-sdk/anthropic"@ {
            ProviderType::Anthropic
        } else if p == "@ai-sdk/google"@ {
            ProviderType::Google
        } else if p == "@ai-sdk/groq"@ {
            ProviderType::Groq
        } else if p == "@ai-sdk/mistral"@ {
            ProviderType::Mistral
        } else if p == "@ai-sdk/ollama"@ {
            ProviderType::Ollama
        } else if p == "@ai-sdk/amazon-bedrock"@ {
            ProviderType::Bedrock
        } else if p == "@ai-sdk/azure"@ {
            ProviderType::Azure
        } else if p == "@openrouter/ai-sdk-provider"@ {
            ProviderType::OpenRouter
        } else if p == "@ai-sdk/huggingface"@ {
            ProviderType::HuggingFace
        } else if p == "@ai-sdk/cohere"@ {
            ProviderType::Cohere
        } else if p == "@ai-sdk/chatgpt-oauth"@ {
            ProviderType::ChatGptOAuth
        } else if p == "@ai-sdk/antigravity"@ {
            ProviderType::Antigravity
        } else {
            ProviderType::Unknown
        },
        None => ProviderType::Unknown,
    }
}

/// Maps a provider's npm package to its provider type.
pub fn provider_type_from_models_dev_npm(npm_package: Option<&str>) -> (t: ProviderType)
    ensures
        t == npm_provider_type(
            match npm_package {
                Some(p) => Some(p@),
                None => None,
            },
        ),
{
    let p = match npm_package {
        Some(p) => p,
        None => return ProviderType::Unknown,
    };
    if str_eq(p, "@ai-sdk/openai") || str_eq(p, "@ai-sdk/openai-compatible") {
        ProviderType::OpenAiCompletions
    } else if str_eq(p, "@ai-sdk/openai-responses") {
        ProviderType::OpenAiResponses
    } else if str_eq(p, "@ai-sdk/anthropic") {
        ProviderType::Anthropic
    } else if str_eq(p, "@ai-sdk/google") {
        ProviderType::Google
    } else if str_eq(p, "@ai-sdk/groq") {
        ProviderType::Groq
    } else if str_eq(p, "@ai-sdk/mistral") {
        ProviderType::Mistral
    } else if str_eq(p, "@ai-sdk/ollama") {
        ProviderType::Ollama
    } else if str_eq(p, "@ai-sdk/amazon-bedrock") {
        ProviderType::Bedrock
    } else if str_eq(p, "@ai-sdk/azure") {
        ProviderType::Azure
    } else if str_eq(p, "@openrouter/ai-sdk-provider") {
        ProviderType::OpenRouter
    } else if str_eq(p, "@ai-sdk/huggingface") {
        ProviderType::HuggingFace
    } else if str_eq(p, "@ai-sdk/cohere") {
        ProviderType::Cohere
    } else if str_eq(p, "@ai-sdk/chatgpt-oauth") {
        ProviderType::ChatGptOAuth
    } else if str_eq(p, "@ai-sdk/antigravity") {
        ProviderType::Antigravity
    } else {
        ProviderType::Unknown
    }
}

/// Each AI SDK package that has a client maps to the provider type of that
/// client (the OpenAI package and its compatible variant both to chat
/// completions); any other package, and no package, maps to `Unknown`.
pub proof fn lemma_npm_provider_types(p: Seq<char>)
    ensures
        npm_provider_type(Some("@ai-sdk/openai"@)) == ProviderType::OpenAiCompletions,
        npm_provider_type(Some("@ai-sdk/openai-compatible"@)) == ProviderType::OpenAiCompletions,
        npm_provider_type(Some("@ai-sdk/openai-responses"@)) == ProviderType::OpenAiResponses,
        npm_provider_type(Some("@ai-sdk/anthropic"@)) == ProviderType::Anthropic,
        npm_provider_type(Some("@ai-sdk/google"@)) == ProviderType::Google,
        npm_provider_type(Some("@ai-sdk/groq"@)) == ProviderType::Groq,
        npm_provider_type(Some("@ai-sdk/mistral"@)) == ProviderType::Mistral,
        npm_provider_type(Some("@ai-sdk/ollama"@)) == ProviderType::Ollama,
        npm_provider_type(Some("@ai-sdk/amazon-bedrock"@)) == ProviderType::Bedrock,
        npm_provider_type(Some("@ai-sdk/azure"@)) == ProviderType::Azure,
        npm_provider_type(Some("@openrouter/ai-sdk-provider"@)) == ProviderType::OpenRouter,
        npm_provider_type(Some("@ai-sdk/huggingface"@)) == ProviderType::HuggingFace,
        npm_provider_type(Some("@ai-sdk/cohere"@)) == ProviderType::Cohere,
        npm_provider_type(Some("@ai-sdk/chatgpt-oauth"@)) == ProviderType::ChatGptOAuth,
        npm_provider_type(Some("@ai-sdk/antigravity"@)) == ProviderType::Antigravity,
        npm_provider_type(None) == ProviderType::Unknown,
        ({
            &&& p != "@ai-sdk/openai"@
            &&& p != "@ai-sdk/openai-compatible"@
            &&& p != "@ai-sdk/openai-responses"@
            &&& p != "@ai-sdk/anthropic"@
            &&& p != "@ai-sdk/google"@
            &&& p != "@ai-sdk/groq"@
            &&& p != "@ai-sdk/mistral"@
            &&& p != "@ai-sdk/ollama"@
            &&& p != "@ai-sdk/amazon-bedrock"@
            &&& p != "@ai-sdk/azure"@
            &&& p != "@openrouter/ai-sdk-provider"@
            &&& p != "@ai-sdk/huggingface"@
            &&& p != "@ai-sdk/cohere"@
            &&& p != "@ai-sdk/chatgpt-oauth"@
            &&& p != "@ai-sdk/antigravity"@
        }) ==> npm_provider_type(Some(p)) == ProviderType::Unknown,
{
    reveal_strlit("@ai-sdk/openai");
    reveal_strlit("@ai-sdk/openai-compatible");
    reveal_strlit("@ai-sdk/openai-responses");
    reveal_strlit("@ai-sdk/anthropic");
    reveal_strlit("@ai-sdk/google");
    reveal_strlit("@ai-sdk/groq");
    reveal_strlit("@ai-sdk/mistral");
    reveal_strlit("@ai-sdk/ollama");
    reveal_strlit("@ai-sdk/amazon-bedrock");
    reveal_strlit("@ai-sdk/azure");
    reveal_strlit("@openrouter/ai-sdk-provider");
    reveal_strlit("@ai-sdk/huggingface");
    reveal_strlit("@ai-sdk/cohere");
    reveal_strlit("@ai-sdk/chatgpt-oauth");
    reveal_strlit("@ai-sdk/antigravity");
    assert("@ai-sdk/openai"@.len() == 14);
    assert("@ai-sdk/openai-compatible"@.len() == 25);
    assert("@ai-sdk/openai-responses"@.len() == 24);
    assert("@ai-sdk/anthropic"@.len() == 17);
    assert("@ai-sdk/google"@.len() == 14);
    assert("@ai-sdk/groq"@.len() == 12);
    assert("@ai-sdk/mistral"@.len() == 15);
    assert("@ai-sdk/ollama"@.len() == 14);
    assert("@ai-sdk/amazon-bedrock"@.len() == 22);
    assert("@ai-sdk/azure"@.len() == 13);
    assert("@openrouter/ai-sdk-provider"@.len() == 27);
    assert("@ai-sdk/huggingface"@.len() == 19);
    assert("@ai-sdk/cohere"@.len() == 14);
    assert("@ai-sdk/chatgpt-oauth"@.len() == 21);
    assert("@ai-sdk/antigravity"@.len() == 19);
    assert("@ai-sdk/google"@[8] != "@ai-sdk/openai"@[8]);
    assert("@ai-sdk/ollama"@[9] != "@ai-sdk/openai"@[9]);
    assert("@ai-sdk/ollama"@[8] != "@ai-sdk/google"@[8]);
    assert("@ai-sdk/cohere"@[8] != "@ai-sdk/openai"@[8]);
    assert("@ai-sdk/cohere"@[8] != "@ai-sdk/google"@[8]);
    assert("@ai-sdk/cohere"@[8] != "@ai-sdk/ollama"@[8]);
    assert("@ai-sdk/antigravity"@[8] != "@ai-sdk/huggingface"@[8]);
}

/// The input flag of a label (`pdf` and unknown labels give none).
pub open spec fn input_flag(label: Seq<char>) -> u8 {
    if label == "text"@ {
        TEXT_INPUT
    } else if label == "image"@ {
        IMAGE_INPUT
    } else if label == "audio"@ {
        AUDIO_INPUT
    } else if label == "video"@ {
        VIDEO_INPUT
    } else {
        0
    }
}

/// The output flag of a label (unknown labels give none).
pub open spec fn output_flag(label: Seq<char>) -> u8 {
    if label == "text"@ {
        TEXT_OUTPUT
    } else if label == "image"@ {
        IMAGE_OUTPUT
    } else if label == "audio"@ {
        AUDIO_OUTPUT
    } else if label == "video"@ {
        VIDEO_OUTPUT
    } else {
        0
    }
}

/// The input flag of a modality label.
pub fn input_modality_flag(label: &str) -> (m: Modality)
    ensures
        m.spec_bits() == input_flag(label@),
{
    if str_eq(label, "text") {
        Modality::from_bits_retain(TEXT_INPUT)
    } else if str_eq(label, "image") {
        Modality::from_bits_retain(IMAGE_INPUT)
    } else if str_eq(label, "audio") {
        Modality::from_bits_retain(AUDIO_INPUT)
    } else if str_eq(label, "video") {
        Modality::from_bits_retain(VIDEO_INPUT)
    } else {
        Modality::empty()
    }
}

/// The output flag of a modality label.
pub fn output_modality_flag(label: &str) -> (m: Modality)
    ensures
        m.spec_bits() == output_flag(label@),
{
    if str_eq(label, "text") {
        Modality::from_bits_retain(TEXT_OUTPUT)
    } else if str_eq(label, "image") {
        Modality::from_bits_retain(IMAGE_OUTPUT)
    } else if str_eq(label, "audio") {
        Modality::from_bits_retain(AUDIO_OUTPUT)
    } else if str_eq(label, "video") {
        Modality::from_bits_retain(VIDEO_OUTPUT)
    } else {
        Modality::empty()
    }
}

/// The flags gathered from input labels, starting from `init`.
pub open spec fn input_bits(init: u8, labels: Seq<String>) -> u8
    decreases labels.len(),
{
    if labels.len() == 0 {
        init
    } else {
        input_bits(init, labels.drop_last()) | input_flag(labels.last()@)
    }
}

/// The flags gathered from output labels, starting from `init`.
pub open spec fn output_bits(init: u8, labels: Seq<String>) -> u8
    decreases labels.len(),
{
    if labels.len() == 0 {
        init
    } else {
        output_bits(init, labels.drop_last()) | output_flag(labels.last()@)
    }
}

/// A model's modality flags: text in both directions when it declares no
/// modalities, else the flags of its input and output labels.
pub open spec fn entry_modality_bits(raw: Option<ApiModelModalities>) -> u8 {
    match raw {
        None => TEXT,
        Some(r) => output_bits(input_bits(0, r.input@), r.output@),
    }
}

/// The modality flags of a model.
pub fn model_modalities(raw: Option<&ApiModelModalities>) -> (m: Modality)
    ensures
        m.spec_bits() == entry_modality_bits(
            match raw {
                Some(r) => Some(*r),
                None => None,
            },
        ),
{
    let raw = match raw {
        Some(r) => r,
        None => return Modality::from_bits_retain(TEXT),
    };
    let mut acc = Modality::empty();
    let mut i: usize = 0;
    while i < raw.input.len()
        invariant
            i <= raw.input@.len(),
            acc.spec_bits() == input_bits(0, raw.input@.take(i as int)),
        decreases raw.input@.len() - i,
    {
        proof {
            assert(raw.input@.take(i + 1).drop_last() =~= raw.input@.take(i as int));
        }
        acc = acc.union(input_modality_flag(raw.input[i].as_str()));
        i = i + 1;
    }
    assert(raw.input@.take(raw.input@.len() as int) =~= raw.input@);
    let ghost start = acc.spec_bits();
    let mut j: usize = 0;
    while j < raw.output.len()
        invariant
            j <= raw.output@.len(),
            acc.spec_bits() == output_bits(start, raw.output@.take(j as int)),
        decreases raw.output@.len() - j,
    {
        proof {
            assert(raw.output@.take(j + 1).drop_last() =~= raw.output@.take(j as int));
        }
        acc = acc.union(output_modality_flag(raw.output[j].as_str()));
        j = j + 1;
    }
    assert(raw.output@.take(raw.output@.len() as int) =~= raw.output@);
    acc
}

/// A model's input limit: `input`, or the context window when it is `0`.
pub open spec fn max_input_spec(limit: ApiModelLimit) -> u32 {
    if limit.input == 0 {
        limit.context
    } else {
        limit.input
    }
}

/// A model's input limit.
pub fn model_max_input(limit: &ApiModelLimit) -> (n: u32)
    ensures
        n == max_input_spec(*limit),
{
    if limit.input == 0 {
        limit.context
    } else {
        limit.input
    }
}

/// The catalog information of a model entry: its limits (both `0` when it
/// has none) and modalities, without sampling defaults.
pub open spec fn entry_info_matches(info: ModelInfo, e: ApiModelEntry) -> bool {
    &&& info.max_input == match e.limit {
        Some(l) => max_input_spec(l),
        None => 0,
    }
    &&& info.max_output == match e.limit {
        Some(l) => l.output,
        None => 0,
    }
    &&& info.modalities.spec_bits() == entry_modality_bits(e.modalities)
    &&& info.temperature is None
    &&& info.top_p is None
}

/// The catalog information of a model entry.
pub fn model_info_from_entry(entry: &ApiModelEntry) -> (info: ModelInfo)
    ensures
        entry_info_matches(info, *entry),
{
    let (max_input, max_output) = match &entry.limit {
        Some(limit) => (model_max_input(limit), limit.output),
        None => (0, 0),
    };
    let modalities = match &entry.modalities {
        Some(m) => model_modalities(Some(m)),
        None => model_modalities(None),
    };
    ModelInfo { modalities, max_input, max_output, temperature: None, top_p: None }
}

/// The provider row made of a provider entry.
pub open spec fn provider_row_matches(row: CachedProviderRow, key: Seq<char>, p: ApiProviderEntry) -> bool {
    &&& row.provider_key@ == key
    &&& row.api_url@ == match p.api {
        Some(a) => a@,
        None => Seq::<char>::empty(),
    }
    &&& views(row.env_vars@) == views(p.env@)
    &&& row.api_type == npm_provider_type(
        match p.npm {
            Some(n) => Some(n@),
            None => None,
        },
    )
}

/// The model row made of a model entry of the provider at `idx`.
pub open spec fn model_row_matches(row: CachedModelRow, idx: int, key: Seq<char>, e: ApiModelEntry) -> bool {
    &&& row.provider_idx.spec_index() == idx
    &&& row.model_key@ == key
    &&& row.modalities_bits == entry_modality_bits(e.modalities)
    &&& row.max_input == match e.limit {
        Some(l) => max_input_spec(l),
        None => 0,
    }
    &&& row.max_output == match e.limit {
        Some(l) => l.output,
        None => 0,
    }
    &&& row.temperature is None
    &&& row.top_p is None
}

/// All model entries, each with its provider's position, in order.
pub open spec fn api_models(ps: Seq<(String, ApiProviderEntry)>) -> Seq<(int, (String, ApiModelEntry))>
    decreases ps.len(),
{
    if ps.len() == 0 {
        Seq::empty()
    } else {
        api_models(ps.drop_last()) + ps.last().1.models@.map_values(
            |e: (String, ApiModelEntry)| (ps.len() - 1, e),
        )
    }
}

fn clone_opt(o: &Option<String>) -> (r: String)
    ensures
        r@ == match *o {
            Some(u) => u@,
            None => Seq::<char>::empty(),
        },
{
    match o {
        Some(u) => u.clone(),
        None => String::new(),
    }
}

fn model_rows_for(idx: u16, models: &Vec<(String, ApiModelEntry)>) -> (r: Vec<CachedModelRow>)
    ensures
        r@.len() == models@.len(),
        forall|j: int| 0 <= j < r@.len() ==> model_row_matches(#[trigger] r@[j], idx as int, models@[j].0@, models@[j].1),
{
    let mut r: Vec<CachedModelRow> = Vec::new();
    let mut j: usize = 0;
    while j < models.len()
        invariant
            j <= models@.len(),
            r@.len() == j,
            forall|k: int| 0 <= k < j ==> model_row_matches(#[trigger] r@[k], idx as int, models@[k].0@, models@[k].1),
        decreases models@.len() - j,
    {
        let info = model_info_from_entry(&models[j].1);
        r.push(CachedModelRow {
            provider_idx: ProviderIdx::new(idx),
            model_key: models[j].0.clone(),
            modalities_bits: info.modalities.bits(),
            max_input: info.max_input,
            max_output: info.max_output,
            temperature: info.temperature,
            top_p: info.top_p,
        });
        j = j + 1;
    }
    r
}

/// Maps parsed models.dev provider entries into cache rows: one provider row
/// per entry, in the given order, and one model row per model pointing at
/// its provider's position. More providers than a provider index can
/// address are refused.
pub fn cache_payload_from_api_entries(entries: &Vec<(String, ApiProviderEntry)>) -> (r: Result<CatalogCachePayload, CatalogError>)
    ensures
        entries@.len() > MAX_PROVIDERS ==> r == Err::<CatalogCachePayload, CatalogError>(
            CatalogError::ModelCatalogBuild(
                ModelCatalogBuildError::TooManyProviders { count: entries@.len() as usize, max: MAX_PROVIDERS },
            ),
        ),
        entries@.len() <= MAX_PROVIDERS ==> (r matches Ok(p) && {
            let all = api_models(entries@);
            &&& p.providers@.len() == entries@.len()
            &&& forall|i: int| 0 <= i < p.providers@.len() ==> provider_row_matches(#[trigger] p.providers@[i], entries@[i].0@, entries@[i].1)
            &&& p.models@.len() == all.len()
            &&& forall|j: int| 0 <= j < p.models@.len() ==> model_row_matches(#[trigger] p.models@[j], all[j].0, all[j].1.0@, all[j].1.1)
            &&& build_error(
                p.providers@.map_values(|r: CachedProviderRow| provider_of_row(r)),
                p.models@.map_values(|m: CachedModelRow| model_of_row(m)),
            ) is None
        }),
{
    let n = entries.len();
    if n > MAX_PROVIDERS {
        return Err(CatalogError::ModelCatalogBuild(ModelCatalogBuildError::TooManyProviders { count: n, max: MAX_PROVIDERS }));
    }
    let mut providers: Vec<CachedProviderRow> = Vec::new();
    let mut models: Vec<CachedModelRow> = Vec::new();
    let mut i: usize = 0;
    while i < n
        invariant
            n == entries@.len(),
            n <= MAX_PROVIDERS,
            i <= n,
            providers@.len() == i,
            forall|k: int| 0 <= k < i ==> provider_row_matches(#[trigger] providers@[k], entries@[k].0@, entries@[k].1),
            models@.len() == api_models(entries@.take(i as int)).len(),
            forall|j: int| 0 <= j < models@.len() ==> model_row_matches(#[trigger] models@[j],
                api_models(entries@.take(i as int))[j].0,
                api_models(entries@.take(i as int))[j].1.0@,
                api_models(entries@.take(i as int))[j].1.1),
        decreases n - i,
    {
        let key = &entries[i].0;
        let p = &entries[i].1;
        let npm: Option<&str> = match &p.npm {
            Some(s) => Some(s.as_str()),
            None => None,
        };
        let row = CachedProviderRow {
            provider_key: key.clone(),
            api_url: clone_opt(&p.api),
            env_vars: clone_strings(&p.env),
            api_type: provider_type_from_models_dev_npm(npm),
        };
        providers.push(row);
        let mut rows = model_rows_for(i as u16, &p.models);
        let ghost before = models@;
        let ghost rows_v = rows@;
        let ghost prev_all = api_models(entries@.take(i as int));
        let ghost added = p.models@.map_values(|e: (String, ApiModelEntry)| ((i + 1) - 1, e));
        proof {
            let t = entries@.take(i + 1);
            assert(t.drop_last() =~= entries@.take(i as int));
            assert(t.last() == entries@[i as int]);
            assert(api_models(t) == prev_all + added);
        }
        models.append(&mut rows);
        proof {
            let t = entries@.take(i + 1);
            let all = api_models(t);
            assert forall|j: int| 0 <= j < models@.len() implies model_row_matches(#[trigger] models@[j], all[j].0, all[j].1.0@, all[j].1.1) by {
                if j < before.len() {
                    assert(models@[j] == before[j]);
                    assert(all[j] == prev_all[j]);
                } else {
                    let q = j - before.len();
                    assert(models@[j] == rows_v[q]);
                    assert(all[j] == added[q]);
                }
            }
        }
        i = i + 1;
    }
    assert(entries@.take(n as int) =~= entries@);
    proof {
        lemma_api_models_in_range(entries@);
        let ms = models@.map_values(|m: CachedModelRow| model_of_row(m));
        assert forall|j: int| 0 <= j < ms.len() implies #[trigger] ms[j].provider_idx.spec_index() < n by {
            assert(ms[j] == model_of_row(models@[j]));
        }
        lemma_indices_in_range(ms, n as nat);
    }
    Ok(CatalogCachePayload { providers, models })
}

proof fn lemma_api_models_in_range(ps: Seq<(String, ApiProviderEntry)>)
    ensures
        forall|j: int| 0 <= j < api_models(ps).len() ==> 0 <= #[trigger] api_models(ps)[j].0 < ps.len(),
    decreases ps.len(),
{
    if ps.len() > 0 {
        let prev = api_models(ps.drop_last());
        let added = ps.last().1.models@.map_values(|e: (String, ApiModelEntry)| (ps.len() - 1, e));
        lemma_api_models_in_range(ps.drop_last());
        assert(api_models(ps) == prev + added);
        assert forall|j: int| 0 <= j < api_models(ps).len() implies 0 <= #[trigger] api_models(ps)[j].0 < ps.len() by {
            if j < prev.len() {
                assert(api_models(ps)[j] == prev[j]);
            } else {
                assert(api_models(ps)[j] == added[j - prev.len()]);
            }
        }
    }
}

} // verus!
