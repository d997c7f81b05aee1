//! Custom provider configuration: merging provider entries from several
//! sources, validating them, and turning them into catalog sources.
//!
//! Reading and parsing the YAML files is the caller's part; each parsed
//! source is a list of `(provider key, config)` entries in document order.
use crate::models::{
    build_error, lemma_indices_in_range, label_flags, Modality, ModelInfo, ProviderIdx, ProviderInfo, ProviderModelSource,
    ProviderSource, ProviderType, MAX_PROVIDERS, TEXT, clone_strings, reversed,
};
use crate::text::{decimal, owned, push_decimal, push_str, str_eq, to_chars, views};
use vstd::prelude::*;

verus! {

/// The `api_type` used when a provider gives none.
pub const DEFAULT_API_TYPE: &'static str = "openai-compatible";

/// `rest` (a relative path) joined under `dir` with one `/` between them.
pub open spec fn join_path(dir: Seq<char>, rest: Seq<char>) -> Seq<char> {
    if dir.len() == 0 {
        rest
    } else if dir.last() == '/' {
        dir + rest
    } else {
        dir + seq!['/'] + rest
    }
}

/// The places a configuration file named `providers.yaml` may stand,
/// user-global first: under `reloaded-code` in the platform configuration
/// directory, when there is one, and then under the project-local `.reloaded`
/// directory.
pub open spec fn candidate_paths_spec(config_dir: Option<Seq<char>>) -> Seq<Seq<char>> {
    let local = ".reloaded/providers.yaml"@;
    match config_dir {
        Some(d) => seq![join_path(d, "reloaded-code/providers.yaml"@), local],
        None => seq![local],
    }
}

/// Lists the candidate configuration file paths in merge order; the caller
/// keeps those that exist.
pub fn candidate_config_paths(config_dir: Option<&str>) -> (v: Vec<String>)
    ensures
        views(v@) == candidate_paths_spec(
            match config_dir {
                Some(d) => Some(d@),
                None => None,
            },
        ),
{
    let mut v: Vec<String> = Vec::new();
    if let Some(d) = config_dir {
        let chars = to_chars(d);
        let mut p = owned(d);
        if chars.len() > 0 && chars[chars.len() - 1] != '/' {
            push_str(&mut p, "/");
            proof {
                reveal_strlit("/");
            }
        }
        push_str(&mut p, "reloaded-code/providers.yaml");
        assert(p@ == join_path(d@, "reloaded-code/providers.yaml"@));
        v.push(p);
    }
    let local = owned(".reloaded/providers.yaml");
    v.push(local);
    proof {
        let expect = candidate_paths_spec(
            match config_dir {
                Some(d) => Some(d@),
                None => None,
            },
        );
        assert(views(v@) =~= expect);
    }
    v
}

/// The provider type an `api_type` string names.
pub open spec fn api_type_spec(s: Seq<char>) -> ProviderType {
    if s == "openai"@ || s == "openai-compatible"@ {
        ProviderType::OpenAiCompletions
    } else if s == "openai-responses"@ {
        ProviderType::OpenAiResponses
    } else if s == "anthropic"@ {
        ProviderType::Anthropic
    } else if s == "google"@ {
        ProviderType::Google
    } else if s == "groq"@ {
        ProviderType::Groq
    } else if s == "mistral"@ {
        ProviderType::Mistral
    } else if s == "ollama"@ {
        ProviderType::Ollama
    } else if s == "bedrock"@ {
        ProviderType::Bedrock
    } else if s == "azure"@ {
        ProviderType::Azure
    } else if s == "openrouter"@ {
        ProviderType::OpenRouter
    } else if s == "huggingface"@ {
        ProviderType::HuggingFace
    } else if s == "cohere"@ {
        ProviderType::Cohere
    } else {
        ProviderType::Unknown
    }
}

/// Maps an `api_type` string to a provider type; `openai` and
/// `openai-compatible` both name the completions API, and unrecognised
/// strings give [`ProviderType::Unknown`].
pub fn api_type_from_str(s: &str) -> (t: ProviderType)
    ensures
        t == api_type_spec(s@),
{
    if str_eq(s, "openai") || str_eq(s, "openai-compatible") {
        ProviderType::OpenAiCompletions
    } else if str_eq(s, "openai-responses") {
        ProviderType::OpenAiResponses
    } else if str_eq(s, "anthropic") {
        ProviderType::Anthropic
    } else if str_eq(s, "google") {
        ProviderType::Google
    } else if str_eq(s, "groq") {
        ProviderType::Groq
    } else if str_eq(s, "mistral") {
        ProviderType::Mistral
    } else if str_eq(s, "ollama") {
        ProviderType::Ollama
    } else if str_eq(s, "bedrock") {
        ProviderType::Bedrock
    } else if str_eq(s, "azure") {
        ProviderType::Azure
    } else if str_eq(s, "openrouter") {
        ProviderType::OpenRouter
    } else if str_eq(s, "huggingface") {
        ProviderType::HuggingFace
    } else if str_eq(s, "cohere") {
        ProviderType::Cohere
    } else {
        ProviderType::Unknown
    }
}

/// Per-model configuration. Sampling defaults are kept as the bits of their
/// `f32` values.
#[derive(Debug, Clone, PartialEq, Eq)]
pub struct ModelConfig {
    /// Maximum input token count.
    pub max_input: u32,
    /// Maximum output token count.
    pub max_output: u32,
    /// Content modality labels (`text`, `image`, `audio`, `video`).
    pub modalities: Vec<String>,
    /// Default sampling temperature (bits of an `f32`).
    pub default_temperature: Option<u32>,
    /// Default nucleus sampling value (bits of an `f32`).
    pub default_top_p: Option<u32>,
}

#[verifier::external_type_specification]
#[verifier::external_body]
#[verifier::reject_recursive_types(K)]
#[verifier::reject_recursive_types(V)]
#[verifier::reject_recursive_types(S)]
pub struct ExIndexMap<K, V, S>(indexmap::IndexMap<K, V, S>);

/// Clones a map (`IndexMap`'s `Clone`); nothing is stated of the copy.
pub assume_specification<K, V, S> [<indexmap::IndexMap<K, V, S> as Clone>::clone](m: &indexmap::IndexMap<K, V, S>) -> indexmap::IndexMap<K, V, S>
    where
        K: Clone,
        V: Clone,
        S: Clone,
;

/// The entries of a map of models by model key, in the map's order.
pub uninterp spec fn model_map_entries(m: indexmap::IndexMap<String, ModelConfig>) -> Seq<(String, ModelConfig)>;

/// The number of models in a map (`IndexMap::len`).
#[verifier::external_body]
fn model_map_len(m: &indexmap::IndexMap<String, ModelConfig>) -> (n: usize)
    ensures
        n == model_map_entries(*m).len(),
{
    m.len()
}

/// The key at a position of a model map (`IndexMap::get_index`; the
/// position is in range, so the entry exists).
#[verifier::external_body]
fn model_map_key(m: &indexmap::IndexMap<String, ModelConfig>, i: usize) -> (k: &String)
    requires
        i < model_map_entries(*m).len(),
    ensures
        *k == model_map_entries(*m)[i as int].0,
{
    m.get_index(i).unwrap().0
}

/// The model at a position of a model map (`IndexMap::get_index`).
#[verifier::external_body]
fn model_map_value(m: &indexmap::IndexMap<String, ModelConfig>, i: usize) -> (v: &ModelConfig)
    requires
        i < model_map_entries(*m).len(),
    ensures
        *v == model_map_entries(*m)[i as int].1,
{
    m.get_index(i).unwrap().1
}

/// The entries of a map of providers by provider key, in the map's order.
pub uninterp spec fn provider_map_entries(m: indexmap::IndexMap<String, ProviderConfig>) -> Seq<(String, ProviderConfig)>;

/// An empty provider map (`IndexMap::new`).
#[verifier::external_body]
fn provider_map_new() -> (m: indexmap::IndexMap<String, ProviderConfig>)
    ensures
        provider_map_entries(m) == Seq::<(String, ProviderConfig)>::empty(),
{
    indexmap::IndexMap::new()
}

/// Inserts an entry (`IndexMap::insert`): as the method documents, a key
/// already present keeps its key and its place and takes the new value; a new
/// key is appended last.
#[verifier::external_body]
fn provider_map_insert(m: &mut indexmap::IndexMap<String, ProviderConfig>, key: String, value: ProviderConfig)
    ensures
        provider_map_entries(*final(m)) == insert_entry(provider_map_entries(*old(m)), (key, value)),
{
    m.insert(key, value);
}

/// The number of providers in a map (`IndexMap::len`).
#[verifier::external_body]
fn provider_map_len(m: &indexmap::IndexMap<String, ProviderConfig>) -> (n: usize)
    ensures
        n == provider_map_entries(*m).len(),
{
    m.len()
}

/// The key at a position of a provider map (`IndexMap::get_index`; the
/// position is in range, so the entry exists).
#[verifier::external_body]
fn provider_map_key(m: &indexmap::IndexMap<String, ProviderConfig>, i: usize) -> (k: &String)
    requires
        i < provider_map_entries(*m).len(),
    ensures
        *k == provider_map_entries(*m)[i as int].0,
{
    m.get_index(i).unwrap().0
}

/// The provider at a position of a provider map (`IndexMap::get_index`).
#[verifier::external_body]
fn provider_map_value(m: &indexmap::IndexMap<String, ProviderConfig>, i: usize) -> (v: &ProviderConfig)
    requires
        i < provider_map_entries(*m).len(),
    ensures
        *v == provider_map_entries(*m)[i as int].1,
{
    m.get_index(i).unwrap().1
}

/// Per-provider configuration.
#[derive(Debug, Clone, PartialEq, Eq)]
pub struct ProviderConfig {
    /// Base URL of the provider API; required except for Ollama.
    pub api_url: Option<String>,
    /// API type string; `openai-compatible` when omitted.
    pub api_type: Option<String>,
    /// Environment variables holding the credential, checked in order.
    pub env: Option<Vec<String>>,
    /// Models offered, by model key, in document order.
    pub models: Option<indexmap::IndexMap<String, ModelConfig>>,
}

/// Errors of loading or validating provider configuration.
#[derive(Debug, Clone, PartialEq, Eq)]
pub enum ProviderConfigError {
    /// A config file could not be read.
    FileRead { path: String, message: String },
    /// A config file is not valid YAML for this shape.
    YamlParse { path: String, message: String },
    /// A provider entry misses a required field.
    MissingField { provider_key: String, field: String },
    /// A model entry misses a required field.
    ModelMissingField { provider_key: String, model_key: String, field: String },
    /// A modality label is not recognised.
    UnrecognizedModality { provider_key: String, model_key: String, value: String },
    /// An `api_type` string is not recognised.
    UnrecognizedApiType { provider_key: String, value: String },
    /// More providers than a provider index can address.
    TooManyProviders { count: usize, max: usize },
}

/// The rendered text of a configuration error.
pub open spec fn config_error_text(e: ProviderConfigError) -> Seq<char> {
    match e {
        ProviderConfigError::FileRead { path, message } => "failed to read config file `"@ + path@
            + "`: "@ + message@,
        ProviderConfigError::YamlParse { path, message } => "failed to parse config file `"@ + path@
            + "`: "@ + message@,
        ProviderConfigError::MissingField { provider_key, field } => "provider `"@ + provider_key@
            + "` is missing required field: "@ + field@,
        ProviderConfigError::ModelMissingField { provider_key, model_key, field } => "provider `"@
            + provider_key@ + "` model `"@ + model_key@ + "` is missing required field: "@ + field@,
        ProviderConfigError::UnrecognizedModality { provider_key, model_key, value } => "provider `"@
            + provider_key@ + "` model `"@ + model_key@ + "` has unrecognized modality `"@ + value@
            + "`; expected one of: text, image, audio, video"@,
        ProviderConfigError::UnrecognizedApiType { provider_key, value } => "provider `"@
            + provider_key@ + "` has unrecognized api_type `"@ + value@ + "`"@,
        ProviderConfigError::TooManyProviders { count, max } => "provider count "@ + decimal(
            count as nat,
        ) + " exceeds supported maximum "@ + decimal(max as nat),
    }
}

impl ProviderConfigError {
    /// Renders the error as text.
    pub fn to_string(&self) -> (s: String)
        ensures
            s@ == config_error_text(*self),
    {
        let mut s = String::new();
        match self {
            ProviderConfigError::FileRead { path, message } => {
                push_str(&mut s, "failed to read config file `");
                push_str(&mut s, path.as_str());
                push_str(&mut s, "`: ");
                push_str(&mut s, message.as_str());
            },
            ProviderConfigError::YamlParse { path, message } => {
                push_str(&mut s, "failed to parse config file `");
                push_str(&mut s, path.as_str());
                push_str(&mut s, "`: ");
                push_str(&mut s, message.as_str());
            },
            ProviderConfigError::MissingField { provider_key, field } => {
                push_str(&mut s, "provider `");
                push_str(&mut s, provider_key.as_str());
                push_str(&mut s, "` is missing required field: ");
                push_str(&mut s, field.as_str());
            },
            ProviderConfigError::ModelMissingField { provider_key, model_key, field } => {
                push_str(&mut s, "provider `");
                push_str(&mut s, provider_key.as_str());
                push_str(&mut s, "` model `");
                push_str(&mut s, model_key.as_str());
                push_str(&mut s, "` is missing required field: ");
                push_str(&mut s, field.as_str());
            },
            ProviderConfigError::UnrecognizedModality { provider_key, model_key, value } => {
                push_str(&mut s, "provider `");
                push_str(&mut s, provider_key.as_str());
                push_str(&mut s, "` model `");
                push_str(&mut s, model_key.as_str());
                push_str(&mut s, "` has unrecognized modality `");
                push_str(&mut s, value.as_str());
                push_str(&mut s, "`; expected one of: text, image, audio, video");
            },
            ProviderConfigError::UnrecognizedApiType { provider_key, value } => {
                push_str(&mut s, "provider `");
                push_str(&mut s, provider_key.as_str());
                push_str(&mut s, "` has unrecognized api_type `");
                push_str(&mut s, value.as_str());
                push_str(&mut s, "`");
            },
            ProviderConfigError::TooManyProviders { count, max } => {
                push_str(&mut s, "provider count ");
                push_decimal(&mut s, *count as u64);
                push_str(&mut s, " exceeds supported maximum ");
                push_decimal(&mut s, *max as u64);
            },
        }
        s
    }
}

/// A source of provider configuration.
#[derive(Debug, Clone, PartialEq, Eq)]
pub enum ConfigSource {
    /// A YAML file, read when the configuration is loaded.
    File(String),
    /// A provider entry given in code.
    Programmatic { key: String, config: ProviderConfig },
}

/// Collects configuration sources in merge order.
#[derive(Debug)]
pub struct ProviderConfigLoader {
    sources: Vec<ConfigSource>,
}

impl ProviderConfigLoader {
    /// The sources, in merge order.
    pub closed spec fn spec_sources(&self) -> Seq<ConfigSource> {
        self.sources@
    }

    /// A loader without sources.
    pub fn new() -> (l: Self)
        ensures
            l.spec_sources() == Seq::<ConfigSource>::empty(),
    {
        ProviderConfigLoader { sources: Vec::new() }
    }

    /// Appends a YAML file source.
    pub fn add_path(&mut self, path: String)
        ensures
            final(self).spec_sources() == old(self).spec_sources().push(ConfigSource::File(path)),
    {
        self.sources.push(ConfigSource::File(path));
    }

    /// Appends a provider entry given in code.
    pub fn add_provider(&mut self, key: &str, config: ProviderConfig)
        ensures
            final(self).spec_sources().len() == old(self).spec_sources().len() + 1,
            final(self).spec_sources().drop_last() == old(self).spec_sources(),
            final(self).spec_sources().last() matches ConfigSource::Programmatic { key: k, config: c }
                && k@ == key@ && c == config,
    {
        self.sources.push(ConfigSource::Programmatic { key: owned(key), config });
    }

    /// The sources, in merge order.
    pub fn into_sources(self) -> (v: Vec<ConfigSource>)
        ensures
            v@ == self.spec_sources(),
    {
        self.sources
    }
}

impl Default for ProviderConfigLoader {
    fn default() -> (l: Self)
        ensures
            l.spec_sources() == Seq::<ConfigSource>::empty(),
    {
        ProviderConfigLoader::new()
    }
}

/// The position of the entry with this key.
pub open spec fn key_position(s: Seq<(String, ProviderConfig)>, key: Seq<char>) -> Option<int>
    decreases s.len(),
{
    if s.len() == 0 {
        None
    } else {
        match key_position(s.drop_last(), key) {
            Some(i) => Some(i),
            None => if s.last().0@ == key {
                Some(s.len() - 1)
            } else {
                None
            },
        }
    }
}

/// Merges one entry: an entry with the same key is replaced in place, a new
/// key is appended.
pub open spec fn insert_entry(s: Seq<(String, ProviderConfig)>, e: (String, ProviderConfig)) -> Seq<(String, ProviderConfig)> {
    match key_position(s, e.0@) {
        Some(i) => s.update(i, (s[i].0, e.1)),
        None => s.push(e),
    }
}

/// The merge of entries in order: later entries replace earlier ones with the
/// same key, keeping the earlier position.
pub open spec fn merge_entries(entries: Seq<(String, ProviderConfig)>) -> Seq<(String, ProviderConfig)>
    decreases entries.len(),
{
    if entries.len() == 0 {
        Seq::empty()
    } else {
        insert_entry(merge_entries(entries.drop_last()), entries.last())
    }
}

/// The config of the last entry with this key.
pub open spec fn last_with_key(entries: Seq<(String, ProviderConfig)>, key: Seq<char>) -> Option<ProviderConfig>
    decreases entries.len(),
{
    if entries.len() == 0 {
        None
    } else if entries.last().0@ == key {
        Some(entries.last().1)
    } else {
        last_with_key(entries.drop_last(), key)
    }
}

/// No key occurs twice.
pub open spec fn distinct_entry_keys(s: Seq<(String, ProviderConfig)>) -> bool {
    forall|i: int, j: int| 0 <= i < j < s.len() ==> s[i].0@ != s[j].0@
}

proof fn lemma_key_position(s: Seq<(String, ProviderConfig)>, key: Seq<char>)
    ensures
        match key_position(s, key) {
            Some(i) => 0 <= i < s.len() && s[i].0@ == key && forall|j: int| 0 <= j < i ==> s[j].0@ != key,
            None => forall|j: int| 0 <= j < s.len() ==> s[j].0@ != key,
        },
    decreases s.len(),
{
    if s.len() > 0 {
        lemma_key_position(s.drop_last(), key);
        assert forall|i: int| 0 <= i < s.len() - 1 implies s[i] == s.drop_last()[i] by {}
    }
}

proof fn lemma_insert_distinct(s: Seq<(String, ProviderConfig)>, e: (String, ProviderConfig))
    requires
        distinct_entry_keys(s),
    ensures
        distinct_entry_keys(insert_entry(s, e)),
{
    lemma_key_position(s, e.0@);
}

proof fn lemma_merge_distinct(entries: Seq<(String, ProviderConfig)>)
    ensures
        distinct_entry_keys(merge_entries(entries)),
    decreases entries.len(),
{
    if entries.len() > 0 {
        lemma_merge_distinct(entries.drop_last());
        lemma_insert_distinct(merge_entries(entries.drop_last()), entries.last());
    }
}

/// Merging keeps exactly the keys of the entries, each with the config of its
/// last entry: a later source overrides an earlier one for the same provider
/// key, whole, and keys only in earlier sources are kept.
pub proof fn lemma_merge_keeps_last(entries: Seq<(String, ProviderConfig)>, key: Seq<char>)
    ensures
        match last_with_key(entries, key) {
            Some(c) => key_position(merge_entries(entries), key) matches Some(i)
                && merge_entries(entries)[i].1 == c,
            None => key_position(merge_entries(entries), key) is None,
        },
    decreases entries.len(),
{
    if entries.len() > 0 {
        let p = entries.drop_last();
        let e = entries.last();
        let m = merge_entries(p);
        lemma_merge_keeps_last(p, key);
        lemma_merge_distinct(p);
        lemma_key_position(m, e.0@);
        lemma_key_position(m, key);
        let t = insert_entry(m, e);
        lemma_key_position(t, key);
        match key_position(m, e.0@) {
            Some(i) => {
                if e.0@ == key {
                    assert(t[i].0@ == key);
                } else {
                    match key_position(m, key) {
                        Some(j) => {
                            assert(t[j] == m[j]);
                            assert forall|q: int| 0 <= q < j implies t[q].0@ != key by {
                                if q == i {
                                } else {
                                    assert(t[q] == m[q]);
                                }
                            }
                        },
                        None => {
                            assert forall|q: int| 0 <= q < t.len() implies t[q].0@ != key by {
                                if q != i {
                                    assert(t[q] == m[q]);
                                }
                            }
                        },
                    }
                }
            },
            None => {
                if e.0@ == key {
                    assert(t[m.len() as int].0@ == key);
                } else {
                    match key_position(m, key) {
                        Some(j) => {
                            assert(t[j] == m[j]);
                            assert forall|q: int| 0 <= q < j implies t[q].0@ != key by {
                                assert(t[q] == m[q]);
                            }
                        },
                        None => {
                            assert forall|q: int| 0 <= q < t.len() implies t[q].0@ != key by {
                                if q < m.len() {
                                    assert(t[q] == m[q]);
                                }
                            }
                        },
                    }
                }
            },
        }
    }
}

/// Merged, validated provider configuration.
#[derive(Debug, Clone, PartialEq, Eq)]
pub struct LoadedProviderConfig {
    /// Provider entries by key, in the order keys first appeared.
    pub providers: indexmap::IndexMap<String, ProviderConfig>,
}

/// The `api_type` string a config stands for.
pub open spec fn api_type_text(c: ProviderConfig) -> Seq<char> {
    match c.api_type {
        Some(t) => t@,
        None => DEFAULT_API_TYPE@,
    }
}

/// The first unrecognised modality label of a model, if any.
pub open spec fn bad_label(labels: Seq<String>) -> Option<int>
    decreases labels.len(),
{
    if labels.len() == 0 {
        None
    } else {
        match bad_label(labels.drop_last()) {
            Some(i) => Some(i),
            None => if label_flags(labels.last()@) is None {
                Some(labels.len() - 1)
            } else {
                None
            },
        }
    }
}

/// The first model with an unrecognised modality label: its position and
/// the label's position.
pub open spec fn bad_model(models: Seq<(String, ModelConfig)>) -> Option<(int, int)>
    decreases models.len(),
{
    if models.len() == 0 {
        None
    } else {
        match bad_model(models.drop_last()) {
            Some(p) => Some(p),
            None => match bad_label(models.last().1.modalities@) {
                Some(j) => Some((models.len() - 1, j)),
                None => None,
            },
        }
    }
}

/// Whether a provider entry passes validation: a known API type, a URL
/// unless the provider is Ollama, at least one model, and only recognised
/// modality labels.
pub open spec fn entry_ok(c: ProviderConfig) -> bool {
    let t = api_type_spec(api_type_text(c));
    &&& t != ProviderType::Unknown
    &&& c.api_url is Some || t == ProviderType::Ollama
    &&& c.models matches Some(ms) && model_map_entries(ms).len() > 0 && bad_model(model_map_entries(ms)) is None
}

/// `e` is the error validation gives for the entry `key: c`, the checks
/// taken in this order: the API type, the URL, the models, then each model's
/// modality labels.
pub open spec fn is_entry_error(key: Seq<char>, c: ProviderConfig, e: ProviderConfigError) -> bool {
    let t = api_type_spec(api_type_text(c));
    if t == ProviderType::Unknown {
        e matches ProviderConfigError::UnrecognizedApiType { provider_key, value } && provider_key@ == key
            && value@ == api_type_text(c)
    } else if c.api_url is None && t != ProviderType::Ollama {
        e matches ProviderConfigError::MissingField { provider_key, field } && provider_key@ == key
            && field@ == "api_url"@
    } else {
        match c.models {
            None => e matches ProviderConfigError::MissingField { provider_key, field } && provider_key@
                == key && field@ == "models"@,
            Some(ms) => if model_map_entries(ms).len() == 0 {
                e matches ProviderConfigError::MissingField { provider_key, field } && provider_key@
                    == key && field@ == "models (must have at least one model)"@
            } else {
                match bad_model(model_map_entries(ms)) {
                    Some((i, j)) => e matches ProviderConfigError::UnrecognizedModality {
                        provider_key,
                        model_key,
                        value,
                    } && provider_key@ == key && model_key@ == model_map_entries(ms)[i].0@ && value@
                        == model_map_entries(ms)[i].1.modalities@[j]@,
                    None => false,
                }
            },
        }
    }
}

/// The position of the first entry that fails validation.
pub open spec fn first_bad_entry(s: Seq<(String, ProviderConfig)>) -> Option<int>
    decreases s.len(),
{
    if s.len() == 0 {
        None
    } else {
        match first_bad_entry(s.drop_last()) {
            Some(i) => Some(i),
            None => if !entry_ok(s.last().1) {
                Some(s.len() - 1)
            } else {
                None
            },
        }
    }
}


/// Merges entries in order: an entry whose key is already present replaces
/// that entry in place, a new key is appended.
pub fn merge_provider_entries(entries: Vec<(String, ProviderConfig)>) -> (r: indexmap::IndexMap<String, ProviderConfig>)
    ensures
        provider_map_entries(r) == merge_entries(entries@),
{
    let ghost all = entries@;
    let n = entries.len();
    let mut rev = reversed(entries);
    let mut merged = provider_map_new();
    let mut i: usize = 0;
    while i < n
        invariant
            n == all.len(),
            i <= n,
            rev@ == all.skip(i as int).reverse(),
            provider_map_entries(merged) == merge_entries(all.take(i as int)),
        decreases n - i,
    {
        let e = rev.pop().unwrap();
        proof {
            assert(e == all[i as int]);
            assert(rev@ =~= all.skip(i + 1).reverse());
            assert(all.take(i + 1).drop_last() =~= all.take(i as int));
            assert(all.take(i + 1).last() == all[i as int]);
        }
        let (key, value) = e;
        provider_map_insert(&mut merged, key, value);
        proof {
            assert(merge_entries(all.take(i + 1)) == insert_entry(
                merge_entries(all.take(i as int)),
                all[i as int],
            ));
        }
        i = i + 1;
    }
    assert(all.take(n as int) =~= all);
    merged
}


proof fn lemma_bad_label_extends(s: Seq<String>, k: int)
    requires
        0 <= k <= s.len(),
        bad_label(s.take(k)) is Some,
    ensures
        bad_label(s) == bad_label(s.take(k)),
    decreases s.len(),
{
    if k == s.len() {
        assert(s.take(k) =~= s);
    } else {
        assert(s.drop_last().take(k) =~= s.take(k));
        lemma_bad_label_extends(s.drop_last(), k);
    }
}

proof fn lemma_bad_model_extends(s: Seq<(String, ModelConfig)>, k: int)
    requires
        0 <= k <= s.len(),
        bad_model(s.take(k)) is Some,
    ensures
        bad_model(s) == bad_model(s.take(k)),
    decreases s.len(),
{
    if k == s.len() {
        assert(s.take(k) =~= s);
    } else {
        assert(s.drop_last().take(k) =~= s.take(k));
        lemma_bad_model_extends(s.drop_last(), k);
    }
}

proof fn lemma_bad_label_range(s: Seq<String>)
    ensures
        bad_label(s) matches Some(j) ==> 0 <= j < s.len(),
    decreases s.len(),
{
    if s.len() > 0 {
        lemma_bad_label_range(s.drop_last());
    }
}

proof fn lemma_bad_model_range(s: Seq<(String, ModelConfig)>)
    ensures
        bad_model(s) matches Some((i, j)) ==> 0 <= i < s.len() && 0 <= j < s[i].1.modalities@.len(),
    decreases s.len(),
{
    if s.len() > 0 {
        lemma_bad_model_range(s.drop_last());
        lemma_bad_label_range(s.last().1.modalities@);
    }
}

/// Finds the first unrecognised modality label of a model.
fn find_bad_label(labels: &Vec<String>) -> (r: Option<usize>)
    ensures
        match r {
            Some(j) => bad_label(labels@) == Some(j as int),
            None => bad_label(labels@) is None,
        },
{
    let n = labels.len();
    let mut j: usize = 0;
    while j < n
        invariant
            n == labels@.len(),
            j <= n,
            bad_label(labels@.take(j as int)) is None,
        decreases n - j,
    {
        proof {
            assert(labels@.take(j + 1).drop_last() =~= labels@.take(j as int));
            assert(labels@.take(j + 1).last() == labels@[j as int]);
        }
        if Modality::from_label(labels[j].as_str()).is_none() {
            proof {
                lemma_bad_label_extends(labels@, j + 1);
            }
            return Some(j);
        }
        j = j + 1;
    }
    assert(labels@.take(n as int) =~= labels@);
    None
}

/// Checks one provider entry: the API type, the URL (not needed for Ollama),
/// the models, then each model's modality labels.
pub fn validate_entry(key: &str, config: &ProviderConfig) -> (r: Result<(), ProviderConfigError>)
    ensures
        entry_ok(*config) ==> r is Ok,
        !entry_ok(*config) ==> (r matches Err(e) && is_entry_error(key@, *config, e)),
{
    let type_text: &str = match &config.api_type {
        Some(t) => t.as_str(),
        None => DEFAULT_API_TYPE,
    };
    let provider_type = api_type_from_str(type_text);
    if provider_type == ProviderType::Unknown {
        return Err(ProviderConfigError::UnrecognizedApiType { provider_key: owned(key), value: owned(type_text) });
    }
    if config.api_url.is_none() && provider_type != ProviderType::Ollama {
        return Err(ProviderConfigError::MissingField { provider_key: owned(key), field: owned("api_url") });
    }
    let models = match &config.models {
        Some(m) => m,
        None => {
            return Err(ProviderConfigError::MissingField { provider_key: owned(key), field: owned("models") });
        },
    };
    if model_map_len(models) == 0 {
        return Err(
            ProviderConfigError::MissingField {
                provider_key: owned(key),
                field: owned("models (must have at least one model)"),
            },
        );
    }
    let n = model_map_len(models);
    let mut i: usize = 0;
    while i < n
        invariant
            n == model_map_entries(*models).len(),
            i <= n,
            bad_model(model_map_entries(*models).take(i as int)) is None,
            api_type_spec(api_type_text(*config)) != ProviderType::Unknown,
            config.api_url is Some || api_type_spec(api_type_text(*config)) == ProviderType::Ollama,
            config.models == Some(*models),
            model_map_entries(*models).len() > 0,
        decreases n - i,
    {
        proof {
            assert(model_map_entries(*models).take(i + 1).drop_last() =~= model_map_entries(*models).take(i as int));
            assert(model_map_entries(*models).take(i + 1).last() == model_map_entries(*models)[i as int]);
        }
        match find_bad_label(&model_map_value(models, i).modalities) {
            Some(j) => {
                proof {
                    lemma_bad_model_extends(model_map_entries(*models), i + 1);
                    lemma_bad_label_range(model_map_entries(*models)[i as int].1.modalities@);
                }
                return Err(
                    ProviderConfigError::UnrecognizedModality {
                        provider_key: owned(key),
                        model_key: model_map_key(models, i).clone(),
                        value: model_map_value(models, i).modalities[j].clone(),
                    },
                );
            },
            None => {},
        }
        i = i + 1;
    }
    assert(model_map_entries(*models).take(n as int) =~= model_map_entries(*models));
    Ok(())
}

proof fn lemma_first_bad_entry_extends(s: Seq<(String, ProviderConfig)>, k: int)
    requires
        0 <= k <= s.len(),
        first_bad_entry(s.take(k)) is Some,
    ensures
        first_bad_entry(s) == first_bad_entry(s.take(k)),
    decreases s.len(),
{
    if k == s.len() {
        assert(s.take(k) =~= s);
    } else {
        assert(s.drop_last().take(k) =~= s.take(k));
        lemma_first_bad_entry_extends(s.drop_last(), k);
    }
}

/// Merges the entries of all sources in order and validates the result; the
/// first failing entry, in merged order, gives the error.
pub fn load_entries(entries: Vec<(String, ProviderConfig)>) -> (r: Result<LoadedProviderConfig, ProviderConfigError>)
    ensures
        ({
            let m = merge_entries(entries@);
            match first_bad_entry(m) {
                Some(i) => r matches Err(e) && is_entry_error(m[i].0@, m[i].1, e),
                None => r matches Ok(l) && provider_map_entries(l.providers) == m,
            }
        }),
{
    let ghost m = merge_entries(entries@);
    let merged = merge_provider_entries(entries);
    let n = provider_map_len(&merged);
    let mut i: usize = 0;
    while i < n
        invariant
            n == provider_map_entries(merged).len(),
            i <= n,
            first_bad_entry(provider_map_entries(merged).take(i as int)) is None,
            provider_map_entries(merged) == m,
            m == merge_entries(entries@),
        decreases n - i,
    {
        proof {
            assert(provider_map_entries(merged).take(i + 1).drop_last() =~= provider_map_entries(merged).take(i as int));
            assert(provider_map_entries(merged).take(i + 1).last() == provider_map_entries(merged)[i as int]);
        }
        let key = provider_map_key(&merged, i).as_str();
        let cfg = provider_map_value(&merged, i);
        assert(key@ == provider_map_entries(merged)[i as int].0@);
        assert(*cfg == provider_map_entries(merged)[i as int].1);
        match validate_entry(key, cfg) {
            Ok(()) => {},
            Err(e) => {
                proof {
                    assert(is_entry_error(provider_map_entries(merged)[i as int].0@, provider_map_entries(merged)[i as int].1, e));
                    assert(!entry_ok(provider_map_entries(merged)[i as int].1));
                    assert(first_bad_entry(provider_map_entries(merged).take(i + 1)) == Some(i as int));
                    lemma_first_bad_entry_extends(provider_map_entries(merged), i + 1);
                    assert(first_bad_entry(m) == Some(i as int));
                }
                return Err(e);
            },
        }
        i = i + 1;
    }
    assert(provider_map_entries(merged).take(n as int) =~= provider_map_entries(merged));
    Ok(LoadedProviderConfig { providers: merged })
}


/// The flags of the recognised labels; unrecognised labels add nothing.
pub open spec fn label_bits(labels: Seq<String>) -> u8
    decreases labels.len(),
{
    if labels.len() == 0 {
        0
    } else {
        label_bits(labels.drop_last()) | match label_flags(labels.last()@) {
            Some(b) => b,
            None => 0u8,
        }
    }
}

/// The modality flags of a configured model: its labels' flags, or text when
/// none of them is recognised.
pub open spec fn config_modality_bits(labels: Seq<String>) -> u8 {
    if label_bits(labels) == 0 {
        TEXT
    } else {
        label_bits(labels)
    }
}

/// Computes the modality flags of a configured model.
fn modalities_of(labels: &Vec<String>) -> (m: Modality)
    ensures
        m.spec_bits() == config_modality_bits(labels@),
{
    let n = labels.len();
    let mut acc = Modality::empty();
    let mut j: usize = 0;
    while j < n
        invariant
            n == labels@.len(),
            j <= n,
            acc.spec_bits() == label_bits(labels@.take(j as int)),
        decreases n - j,
    {
        proof {
            assert(labels@.take(j + 1).drop_last() =~= labels@.take(j as int));
            assert(labels@.take(j + 1).last() == labels@[j as int]);
        }
        match Modality::from_label(labels[j].as_str()) {
            Some(m) => {
                acc = acc.union(m);
            },
            None => {
                proof {
                    let b = acc.spec_bits();
                    assert(b | 0u8 == b) by (bit_vector);
                }
            },
        }
        j = j + 1;
    }
    assert(labels@.take(n as int) =~= labels@);
    if acc.is_empty() {
        Modality::from_bits_retain(TEXT)
    } else {
        acc
    }
}

proof fn lemma_label_bits(labels: Seq<String>)
    ensures
        (forall|i: int| 0 <= i < labels.len() ==> label_flags(#[trigger] labels[i]@) is None) ==> label_bits(labels)
            == 0,
        forall|i: int|
            #![trigger labels[i]]
            0 <= i < labels.len() && label_flags(labels[i]@) is Some ==> label_bits(labels) & label_flags(
                labels[i]@,
            )->0 == label_flags(labels[i]@)->0,
    decreases labels.len(),
{
    if labels.len() > 0 {
        let init = labels.drop_last();
        lemma_label_bits(init);
        let x = label_bits(init);
        let y: u8 = match label_flags(labels.last()@) {
            Some(b) => b,
            None => 0u8,
        };
        assert(label_bits(labels) == x | y);
        if forall|i: int| 0 <= i < labels.len() ==> label_flags(#[trigger] labels[i]@) is None {
            assert forall|i: int| 0 <= i < init.len() implies label_flags(#[trigger] init[i]@) is None by {
                assert(init[i] == labels[i]);
            }
            assert(label_flags(labels[labels.len() - 1]@) is None);
            assert(x | 0u8 == x) by (bit_vector);
        }
        assert forall|i: int|
            #![trigger labels[i]]
            0 <= i < labels.len() && label_flags(labels[i]@) is Some implies label_bits(labels) & label_flags(
                labels[i]@,
            )->0 == label_flags(labels[i]@)->0 by {
            let b = label_flags(labels[i]@)->0;
            if i == labels.len() - 1 {
                assert(y == b);
                assert((x | b) & b == b) by (bit_vector);
            } else {
                assert(init[i] == labels[i]);
                assert(x & b == b);
                assert(x & b == b ==> (x | y) & b == b) by (bit_vector);
            }
        }
    }
}

/// A configured model always has some modality: with no recognised label it
/// is text in both directions, and otherwise it has every flag that one of
/// its recognised labels stands for.
pub proof fn lemma_config_modalities(labels: Seq<String>)
    ensures
        config_modality_bits(labels) != 0,
        (forall|i: int| 0 <= i < labels.len() ==> label_flags(#[trigger] labels[i]@) is None) ==> config_modality_bits(
            labels,
        ) == TEXT,
        forall|i: int|
            #![trigger labels[i]]
            0 <= i < labels.len() && label_flags(labels[i]@) is Some ==> config_modality_bits(labels) & label_flags(
                labels[i]@,
            )->0 == label_flags(labels[i]@)->0,
{
    lemma_label_bits(labels);
    assert forall|i: int|
        #![trigger labels[i]]
        0 <= i < labels.len() && label_flags(labels[i]@) is Some implies config_modality_bits(labels) & label_flags(
            labels[i]@,
        )->0 == label_flags(labels[i]@)->0 by {
        let b = label_flags(labels[i]@)->0;
        assert(b != 0);
        let x = label_bits(labels);
        assert(x & b == b);
        assert(x & b == b && b != 0 ==> x != 0) by (bit_vector);
    }
}

/// The model source made of a configured model.
pub open spec fn model_source_matches(src: ProviderModelSource, idx: int, key: Seq<char>, mc: ModelConfig) -> bool {
    &&& src.provider_idx.spec_index() == idx
    &&& src.model_key@ == key
    &&& src.model.modalities.spec_bits() == config_modality_bits(mc.modalities@)
    &&& src.model.max_input == mc.max_input
    &&& src.model.max_output == mc.max_output
    &&& src.model.temperature == mc.default_temperature
    &&& src.model.top_p == mc.default_top_p
}

/// The provider source made of a provider entry.
pub open spec fn provider_source_matches(p: ProviderSource, key: Seq<char>, c: ProviderConfig) -> bool {
    &&& p.provider_key@ == key
    &&& p.provider.api_url@ == match c.api_url {
        Some(u) => u@,
        None => Seq::<char>::empty(),
    }
    &&& views(p.provider.env_vars@) == match c.env {
        Some(v) => views(v@),
        None => Seq::<Seq<char>>::empty(),
    }
    &&& p.provider.api_type == api_type_spec(api_type_text(c))
}

/// The models of a provider entry.
pub open spec fn entry_models(c: ProviderConfig) -> Seq<(String, ModelConfig)> {
    match c.models {
        Some(m) => model_map_entries(m),
        None => Seq::empty(),
    }
}

/// All models of the entries, each with its provider's position, in order.
pub open spec fn all_models(ps: Seq<(String, ProviderConfig)>) -> Seq<(int, (String, ModelConfig))>
    decreases ps.len(),
{
    if ps.len() == 0 {
        Seq::empty()
    } else {
        all_models(ps.drop_last()) + entry_models(ps.last().1).map_values(
            |e: (String, ModelConfig)| (ps.len() - 1, e),
        )
    }
}

fn clone_opt_string(o: &Option<String>) -> (r: String)
    ensures
        r@ == match *o {
            Some(u) => u@,
            None => Seq::<char>::empty(),
        },
{
    match o {
        Some(u) => u.clone(),
        None => String::new(),
    }
}

fn model_sources_for(idx: u16, models: &indexmap::IndexMap<String, ModelConfig>) -> (r: Vec<ProviderModelSource>)
    ensures
        r@.len() == model_map_entries(*models).len(),
        forall|j: int| 0 <= j < r@.len() ==> model_source_matches(#[trigger] r@[j], idx as int, model_map_entries(*models)[j].0@, model_map_entries(*models)[j].1),
{
    let mut r: Vec<ProviderModelSource> = Vec::new();
    let mut j: usize = 0;
    while j < model_map_len(models)
        invariant
            j <= model_map_entries(*models).len(),
            r@.len() == j,
            forall|k: int| 0 <= k < j ==> model_source_matches(#[trigger] r@[k], idx as int, model_map_entries(*models)[k].0@, model_map_entries(*models)[k].1),
        decreases model_map_entries(*models).len() - j,
    {
        let mc = model_map_value(models, j);
        let info = ModelInfo {
            modalities: modalities_of(&mc.modalities),
            max_input: mc.max_input,
            max_output: mc.max_output,
            temperature: mc.default_temperature,
            top_p: mc.default_top_p,
        };
        r.push(ProviderModelSource::new(ProviderIdx::new(idx), model_map_key(models, j).clone(), info));
        j = j + 1;
    }
    r
}

proof fn lemma_all_models_in_range(ps: Seq<(String, ProviderConfig)>)
    ensures
        forall|j: int| 0 <= j < all_models(ps).len() ==> 0 <= #[trigger] all_models(ps)[j].0 < ps.len(),
    decreases ps.len(),
{
    if ps.len() > 0 {
        let prev = all_models(ps.drop_last());
        let added = entry_models(ps.last().1).map_values(|e: (String, ModelConfig)| (ps.len() - 1, e));
        lemma_all_models_in_range(ps.drop_last());
        assert(all_models(ps) == prev + added);
        assert forall|j: int| 0 <= j < all_models(ps).len() implies 0 <= #[trigger] all_models(ps)[j].0 < ps.len() by {
            if j < prev.len() {
                assert(all_models(ps)[j] == prev[j]);
            } else {
                assert(all_models(ps)[j] == added[j - prev.len()]);
            }
        }
    }
}

impl LoadedProviderConfig {
    /// Converts the configuration into catalog sources: one provider source
    /// per entry (empty URL and no variables where none are given, the API
    /// type defaulting to `openai-compatible`) and one model source per
    /// configured model, pointing at its provider's position.
    pub fn to_catalog_sources(&self) -> (r: Result<(Vec<ProviderSource>, Vec<ProviderModelSource>), ProviderConfigError>)
        ensures
            provider_map_entries(self.providers).len() > MAX_PROVIDERS ==> (r matches Err(ProviderConfigError::TooManyProviders { count, max })
                && count == provider_map_entries(self.providers).len() && max == MAX_PROVIDERS),
            provider_map_entries(self.providers).len() <= MAX_PROVIDERS ==> (r matches Ok((ps, ms)) && {
                let all = all_models(provider_map_entries(self.providers));
                &&& ps@.len() == provider_map_entries(self.providers).len()
                &&& forall|i: int| 0 <= i < ps@.len() ==> provider_source_matches(#[trigger] ps@[i], provider_map_entries(self.providers)[i].0@, provider_map_entries(self.providers)[i].1)
                &&& ms@.len() == all.len()
                &&& forall|j: int| 0 <= j < ms@.len() ==> model_source_matches(#[trigger] ms@[j], all[j].0, all[j].1.0@, all[j].1.1)
                &&& build_error(ps@, ms@) is None
            }),
    {
        let n = provider_map_len(&self.providers);
        if n > MAX_PROVIDERS {
            return Err(ProviderConfigError::TooManyProviders { count: n, max: MAX_PROVIDERS });
        }
        let mut ps: Vec<ProviderSource> = Vec::new();
        let mut ms: Vec<ProviderModelSource> = Vec::new();
        let mut i: usize = 0;
        while i < n
            invariant
                n == provider_map_entries(self.providers).len(),
                n <= MAX_PROVIDERS,
                i <= n,
                ps@.len() == i,
                forall|k: int| 0 <= k < i ==> provider_source_matches(#[trigger] ps@[k], provider_map_entries(self.providers)[k].0@, provider_map_entries(self.providers)[k].1),
                ms@.len() == all_models(provider_map_entries(self.providers).take(i as int)).len(),
                forall|j: int| 0 <= j < ms@.len() ==> model_source_matches(#[trigger] ms@[j],
                    all_models(provider_map_entries(self.providers).take(i as int))[j].0,
                    all_models(provider_map_entries(self.providers).take(i as int))[j].1.0@,
                    all_models(provider_map_entries(self.providers).take(i as int))[j].1.1),
            decreases n - i,
        {
            let key = provider_map_key(&self.providers, i);
            let config = provider_map_value(&self.providers, i);
            let type_text: &str = match &config.api_type {
                Some(t) => t.as_str(),
                None => DEFAULT_API_TYPE,
            };
            let env_vars = match &config.env {
                Some(v) => clone_strings(v),
                None => Vec::new(),
            };
            let info = ProviderInfo {
                api_url: clone_opt_string(&config.api_url),
                env_vars,
                api_type: api_type_from_str(type_text),
            };
            proof {
                assert(type_text@ == api_type_text(*config));
                assert(views(info.env_vars@) =~= match config.env {
                    Some(v) => views(v@),
                    None => Seq::<Seq<char>>::empty(),
                });
            }
            ps.push(ProviderSource::new(key.clone(), info));
            let mut rows = match &config.models {
                Some(m) => model_sources_for(i as u16, m),
                None => Vec::new(),
            };
            let ghost before = ms@;
            let ghost rows_v = rows@;
            let ghost prev_all = all_models(provider_map_entries(self.providers).take(i as int));
            let ghost added = entry_models(*config).map_values(
                |e: (String, ModelConfig)| ((i + 1) - 1, e),
            );
            proof {
                let t = provider_map_entries(self.providers).take(i + 1);
                assert(t.drop_last() =~= provider_map_entries(self.providers).take(i as int));
                assert(t.last() == provider_map_entries(self.providers)[i as int]);
                assert(all_models(t) == prev_all + added);
            }
            ms.append(&mut rows);
            proof {
                let t = provider_map_entries(self.providers).take(i + 1);
                let all = all_models(t);
                assert forall|j: int| 0 <= j < ms@.len() implies model_source_matches(#[trigger] ms@[j], all[j].0, all[j].1.0@, all[j].1.1) by {
                    if j < before.len() {
                        assert(ms@[j] == before[j]);
                        assert(all[j] == prev_all[j]);
                    } else {
                        let q = j - before.len();
                        assert(ms@[j] == rows_v[q]);
                        assert(all[j] == added[q]);
                    }
                }
            }
            i = i + 1;
        }
        assert(provider_map_entries(self.providers).take(n as int) =~= provider_map_entries(self.providers));
        proof {
            lemma_all_models_in_range(provider_map_entries(self.providers));
            lemma_indices_in_range(ms@, n as nat);
        }
        Ok((ps, ms))
    }
}


} // verus!
