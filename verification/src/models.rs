//! The model catalog: providers, their models and the model configurations
//! they share, with lookups by provider key and model key.
use crate::text::str_eq;
use vstd::prelude::*;

verus! {

/// The API shape a provider speaks.
#[derive(Debug, Clone, Copy, PartialEq, Eq, Structural)]
pub enum ProviderType {
    OpenAiCompletions,
    OpenAiResponses,
    Anthropic,
    Google,
    Groq,
    Mistral,
    Ollama,
    Bedrock,
    Azure,
    OpenRouter,
    HuggingFace,
    Cohere,
    ChatGptOAuth,
    ClaudeCodeOAuth,
    Antigravity,
    Unknown,
}

/// Text accepted as input.
pub const TEXT_INPUT: u8 = 1;
/// Text produced as output.
pub const TEXT_OUTPUT: u8 = 2;
/// Images accepted as input.
pub const IMAGE_INPUT: u8 = 4;
/// Images produced as output.
pub const IMAGE_OUTPUT: u8 = 8;
/// Audio accepted as input.
pub const AUDIO_INPUT: u8 = 16;
/// Audio produced as output.
pub const AUDIO_OUTPUT: u8 = 32;
/// Video accepted as input.
pub const VIDEO_INPUT: u8 = 64;
/// Video produced as output.
pub const VIDEO_OUTPUT: u8 = 128;
/// Text in both directions.
pub const TEXT: u8 = 3;
/// Images in both directions.
pub const IMAGE: u8 = 12;
/// Audio in both directions.
pub const AUDIO: u8 = 48;
/// Video in both directions.
pub const VIDEO: u8 = 192;

/// A set of directional content modalities, as bit flags.
#[derive(Debug, Clone, Copy, PartialEq, Eq, Structural)]
pub struct Modality {
    bits: u8,
}

/// The flags a modality label stands for: both directions of one medium.
pub open spec fn label_flags(label: Seq<char>) -> Option<u8> {
    if label == "text"@ {
        Some(TEXT)
    } else if label == "image"@ {
        Some(IMAGE)
    } else if label == "audio"@ {
        Some(AUDIO)
    } else if label == "video"@ {
        Some(VIDEO)
    } else {
        None
    }
}

impl Modality {
    /// The flag bits.
    pub closed spec fn spec_bits(self) -> u8 {
        self.bits
    }

    /// No modality.
    pub fn empty() -> (m: Self)
        ensures
            m.spec_bits() == 0,
    {
        Modality { bits: 0 }
    }

    /// The modality with exactly these bits.
    pub closed spec fn spec_from_bits(bits: u8) -> Modality {
        Modality { bits }
    }

    /// The bits of the modality made from bits.
    pub proof fn lemma_from_bits(bits: u8)
        ensures
            Modality::spec_from_bits(bits).spec_bits() == bits,
    {
    }

    /// The modality with exactly these bits.
    pub fn from_bits_retain(bits: u8) -> (m: Self)
        ensures
            m.spec_bits() == bits,
            m == Modality::spec_from_bits(bits),
    {
        Modality { bits }
    }

    /// The flag bits.
    pub fn bits(self) -> (b: u8)
        ensures
            b == self.spec_bits(),
    {
        self.bits
    }

    /// Whether no flag is set.
    pub fn is_empty(self) -> (b: bool)
        ensures
            b == (self.spec_bits() == 0),
    {
        self.bits == 0
    }

    /// The flags of both modalities.
    pub fn union(self, other: Self) -> (m: Self)
        ensures
            m.spec_bits() == self.spec_bits() | other.spec_bits(),
    {
        Modality { bits: self.bits | other.bits }
    }

    /// The modality named by a label (`text`, `image`, `audio`, `video`), in
    /// both directions.
    pub fn from_label(label: &str) -> (r: Option<Self>)
        ensures
            match label_flags(label@) {
                Some(b) => r matches Some(m) && m.spec_bits() == b,
                None => r is None,
            },
    {
        if str_eq(label, "text") {
            Some(Modality { bits: TEXT })
        } else if str_eq(label, "image") {
            Some(Modality { bits: IMAGE })
        } else if str_eq(label, "audio") {
            Some(Modality { bits: AUDIO })
        } else if str_eq(label, "video") {
            Some(Modality { bits: VIDEO })
        } else {
            None
        }
    }
}

/// Position of a provider in the catalog's provider list.
#[derive(Debug, Clone, Copy, PartialEq, Eq, Structural)]
pub struct ProviderIdx {
    idx: u16,
}

impl ProviderIdx {
    /// The position.
    pub closed spec fn spec_index(self) -> u16 {
        self.idx
    }

    /// The provider at position `idx`.
    pub fn new(idx: u16) -> (p: Self)
        ensures
            p.spec_index() == idx,
    {
        ProviderIdx { idx }
    }

    /// The position.
    pub fn get(self) -> (i: u16)
        ensures
            i == self.spec_index(),
    {
        self.idx
    }
}

/// How to reach a provider.
#[derive(Debug, Clone, PartialEq, Eq)]
pub struct ProviderInfo {
    /// Base URL of the provider API.
    pub api_url: String,
    /// Environment variables that may hold the credential, in order.
    pub env_vars: Vec<String>,
    /// The API shape.
    pub api_type: ProviderType,
}

impl ProviderInfo {
    /// The environment variables that may hold the credential.
    pub fn env_vars(&self) -> (v: &Vec<String>)
        ensures
            v == &self.env_vars,
    {
        &self.env_vars
    }
}

/// What a model offers. Sampling defaults are kept as the bits of their
/// `f32` values.
#[derive(Debug, Clone, Copy, PartialEq, Eq, Structural)]
pub struct ModelInfo {
    /// Supported content modalities.
    pub modalities: Modality,
    /// Maximum input tokens.
    pub max_input: u32,
    /// Maximum output tokens.
    pub max_output: u32,
    /// Default sampling temperature (bits of an `f32`).
    pub temperature: Option<u32>,
    /// Default nucleus sampling value (bits of an `f32`).
    pub top_p: Option<u32>,
}

impl ModelInfo {
    /// The default temperature (bits of an `f32`).
    pub fn temperature(&self) -> (t: Option<u32>)
        ensures
            t == self.temperature,
    {
        self.temperature
    }

    /// The default nucleus sampling value (bits of an `f32`).
    pub fn top_p(&self) -> (t: Option<u32>)
        ensures
            t == self.top_p,
    {
        self.top_p
    }
}

/// A provider given to [`ModelCatalog::build`].
#[derive(Debug, Clone, PartialEq, Eq)]
pub struct ProviderSource {
    /// The key the provider is looked up by.
    pub provider_key: String,
    /// How to reach it.
    pub provider: ProviderInfo,
}

impl ProviderSource {
    /// A provider source.
    pub fn new(key: String, provider: ProviderInfo) -> (s: Self)
        ensures
            s.provider_key == key,
            s.provider == provider,
    {
        ProviderSource { provider_key: key, provider }
    }
}

/// A model given to [`ModelCatalog::build`], attached to a provider by
/// position.
#[derive(Debug, Clone, PartialEq, Eq)]
pub struct ProviderModelSource {
    /// Position of the provider in the provider list.
    pub provider_idx: ProviderIdx,
    /// The key the model is looked up by within its provider.
    pub model_key: String,
    /// What the model offers.
    pub model: ModelInfo,
}

impl ProviderModelSource {
    /// A model source.
    pub fn new(provider_idx: ProviderIdx, model_key: String, model: ModelInfo) -> (s: Self)
        ensures
            s.provider_idx == provider_idx,
            s.model_key == model_key,
            s.model == model,
    {
        ProviderModelSource { provider_idx, model_key, model }
    }
}

/// Why a catalog could not be built.
#[derive(Debug, Clone, PartialEq, Eq)]
pub enum ModelCatalogBuildError {
    /// More providers than a [`ProviderIdx`] can address.
    TooManyProviders { count: usize, max: usize },
    /// A model names a provider position past the end of the provider list.
    ProviderIdxOutOfRangeForModel { model_key: String, provider_idx: u16, provider_count: usize },
}

/// The largest number of providers a catalog holds (`u16::MAX + 1`).
pub const MAX_PROVIDERS: usize = 65536;

/// One model of the catalog: its provider, its key and its shared
/// configuration.
#[derive(Debug)]
struct ModelRow {
    provider_idx: u16,
    model_key: String,
    config: usize,
}

/// The position of the first provider with this key.
pub open spec fn find_provider(ps: Seq<ProviderSource>, key: Seq<char>) -> Option<int>
    decreases ps.len(),
{
    if ps.len() == 0 {
        None
    } else {
        match find_provider(ps.drop_last(), key) {
            Some(i) => Some(i),
            None => if ps.last().provider_key@ == key {
                Some(ps.len() - 1)
            } else {
                None
            },
        }
    }
}

/// The position of the first model of provider `pi` with this key.
pub open spec fn find_model(ms: Seq<ProviderModelSource>, pi: int, key: Seq<char>) -> Option<int>
    decreases ms.len(),
{
    if ms.len() == 0 {
        None
    } else {
        match find_model(ms.drop_last(), pi, key) {
            Some(i) => Some(i),
            None => if ms.last().provider_idx.spec_index() == pi && ms.last().model_key@ == key {
                Some(ms.len() - 1)
            } else {
                None
            },
        }
    }
}

/// The error refusing these sources, if any: too many providers, else the
/// first model whose provider position is out of range.
pub open spec fn build_error(ps: Seq<ProviderSource>, ms: Seq<ProviderModelSource>) -> Option<ModelCatalogBuildError> {
    if ps.len() > MAX_PROVIDERS {
        Some(ModelCatalogBuildError::TooManyProviders { count: ps.len() as usize, max: MAX_PROVIDERS })
    } else {
        match first_out_of_range(ms, ps.len()) {
            Some(i) => Some(
                ModelCatalogBuildError::ProviderIdxOutOfRangeForModel {
                    model_key: ms[i].model_key,
                    provider_idx: ms[i].provider_idx.spec_index(),
                    provider_count: ps.len() as usize,
                },
            ),
            None => None,
        }
    }
}

/// The position of the first model whose provider position is not below `n`.
pub open spec fn first_out_of_range(ms: Seq<ProviderModelSource>, n: nat) -> Option<int>
    decreases ms.len(),
{
    if ms.len() == 0 {
        None
    } else {
        match first_out_of_range(ms.drop_last(), n) {
            Some(i) => Some(i),
            None => if ms.last().provider_idx.spec_index() >= n {
                Some(ms.len() - 1)
            } else {
                None
            },
        }
    }
}

/// The model configurations of a list of model sources.
pub open spec fn infos(ms: Seq<ProviderModelSource>) -> Seq<ModelInfo> {
    ms.map_values(|m: ProviderModelSource| m.model)
}

/// An immutable catalog of providers and their models. Models with equal
/// configurations share one stored configuration.
pub struct ModelCatalog {
    providers: Vec<ProviderSource>,
    models: Vec<ModelRow>,
    configs: Vec<ModelInfo>,
    model_sources: Ghost<Seq<ProviderModelSource>>,
}

impl ModelCatalog {
    #[verifier::type_invariant]
    spec fn wf(self) -> bool {
        &&& self.models@.len() == self.model_sources@.len()
        &&& self.configs@.no_duplicates()
        &&& forall|i: int| #![trigger self.models@[i]]
            0 <= i < self.models@.len() ==> {
                let row = self.models@[i];
                let src = self.model_sources@[i];
                &&& row.config < self.configs@.len()
                &&& self.configs@[row.config as int] == src.model
                &&& row.provider_idx == src.provider_idx.spec_index()
                &&& row.model_key@ == src.model_key@
                &&& row.provider_idx < self.providers@.len()
            }
        &&& forall|c: int| 0 <= c < self.configs@.len() ==> #[trigger] infos(self.model_sources@).contains(
            self.configs@[c],
        )
    }

    /// The providers, in catalog order.
    pub closed spec fn providers(self) -> Seq<ProviderSource> {
        self.providers@
    }

    /// The models, in catalog order.
    pub closed spec fn models(self) -> Seq<ProviderModelSource> {
        self.model_sources@
    }

    /// The number of distinct model configurations.
    pub closed spec fn config_count(self) -> nat {
        self.configs@.len()
    }

    /// Builds a catalog; every model must name a provider position within
    /// the provider list, and there may be at most [`MAX_PROVIDERS`]
    /// providers.
    pub fn build(providers: Vec<ProviderSource>, models: &Vec<ProviderModelSource>) -> (r: Result<ModelCatalog, ModelCatalogBuildError>)
        ensures
            match build_error(providers@, models@) {
                Some(e) => r == Err::<ModelCatalog, ModelCatalogBuildError>(e),
                None => r matches Ok(c) && c.providers() == providers@ && c.models() == models@
                    && c.config_count() == infos(models@).to_set().len(),
            },
    {
        let pn = providers.len();
        if pn > MAX_PROVIDERS {
            return Err(ModelCatalogBuildError::TooManyProviders { count: pn, max: MAX_PROVIDERS });
        }
        let mn = models.len();
        let mut rows: Vec<ModelRow> = Vec::new();
        let mut configs: Vec<ModelInfo> = Vec::new();
        let mut i: usize = 0;
        while i < mn
            invariant
                mn == models@.len(),
                pn == providers@.len(),
                pn <= MAX_PROVIDERS,
                i <= mn,
                rows@.len() == i,
                first_out_of_range(models@.take(i as int), pn as nat) is None,
                configs@.no_duplicates(),
                forall|k: int| #![trigger rows@[k]]
                    0 <= k < i ==> {
                        let row = rows@[k];
                        let src = models@[k];
                        &&& row.config < configs@.len()
                        &&& configs@[row.config as int] == src.model
                        &&& row.provider_idx == src.provider_idx.spec_index()
                        &&& row.model_key@ == src.model_key@
                        &&& row.provider_idx < pn
                    },
                configs@.to_set() == infos(models@.take(i as int)).to_set(),
            decreases mn - i,
        {
            let m = &models[i];
            proof {
                assert(models@.take(i + 1).drop_last() =~= models@.take(i as int));
                assert(models@.take(i + 1).last() == models@[i as int]);
            }
            let pidx = m.provider_idx.get();
            if (pidx as usize) >= pn {
                proof {
                    lemma_first_out_of_range_extends(models@, i + 1, pn as nat);
                }
                return Err(
                    ModelCatalogBuildError::ProviderIdxOutOfRangeForModel {
                        model_key: m.model_key.clone(),
                        provider_idx: pidx,
                        provider_count: pn,
                    },
                );
            }
            let ghost old_configs = configs@;
            let mut c: usize = 0;
            let mut found = false;
            while c < configs.len()
                invariant_except_break
                    !found,
                invariant
                    c <= configs@.len(),
                    configs@ == old_configs,
                    forall|k: int| 0 <= k < c ==> configs@[k] != m.model,
                ensures
                    found ==> c < configs@.len() && configs@[c as int] == m.model,
                    !found ==> c == configs@.len() && forall|k: int| 0 <= k < configs@.len() ==> configs@[k] != m.model,
                decreases configs@.len() - c,
            {
                if configs[c] == m.model {
                    found = true;
                    break;
                }
                c = c + 1;
            }
            if !found {
                configs.push(m.model);
                proof {
                    assert(configs@ == old_configs.push(m.model));
                    assert(configs@.no_duplicates()) by {
                        assert forall|a: int, b: int| 0 <= a < configs@.len() && 0 <= b < configs@.len()
                            && a != b implies configs@[a] != configs@[b] by {
                            if a < old_configs.len() && b < old_configs.len() {
                                assert(old_configs[a] != old_configs[b]);
                            }
                        }
                    }
                }
            }
            proof {
                let ti = infos(models@.take(i as int));
                let tn = infos(models@.take(i + 1));
                assert(tn =~= ti.push(m.model));
                assert(configs@.to_set() =~= tn.to_set()) by {
                    assert forall|x: ModelInfo| configs@.to_set().contains(x) <==> tn.to_set().contains(x) by {
                        if configs@.to_set().contains(x) {
                            let k = choose|k: int| 0 <= k < configs@.len() && configs@[k] == x;
                            if k < old_configs.len() {
                                assert(old_configs.to_set().contains(x));
                                assert(ti.to_set().contains(x));
                                let j = choose|j: int| 0 <= j < ti.len() && ti[j] == x;
                                assert(tn[j] == x);
                            } else {
                                assert(tn[ti.len() as int] == x);
                            }
                        }
                        if tn.to_set().contains(x) {
                            let j = choose|j: int| 0 <= j < tn.len() && tn[j] == x;
                            if j < ti.len() {
                                assert(ti[j] == x);
                                assert(ti.to_set().contains(x));
                                assert(old_configs.to_set().contains(x));
                                let k = choose|k: int| 0 <= k < old_configs.len() && old_configs[k] == x;
                                assert(configs@[k] == x);
                            } else {
                                assert(configs@[c as int] == x);
                            }
                        }
                    }
                }
            }
            rows.push(ModelRow { provider_idx: pidx, model_key: m.model_key.clone(), config: c });
            i = i + 1;
        }
        proof {
            assert(models@.take(mn as int) =~= models@);
            configs@.unique_seq_to_set();
            assert forall|c: int| 0 <= c < configs@.len() implies #[trigger] infos(models@).contains(
                configs@[c],
            ) by {
                assert(configs@.to_set().contains(configs@[c]));
            }
        }
        Ok(ModelCatalog { providers, models: rows, configs, model_sources: Ghost(models@) })
    }

    /// The number of providers.
    pub fn provider_count(&self) -> (n: usize)
        ensures
            n == self.providers().len(),
    {
        self.providers.len()
    }

    /// The number of models over all providers.
    pub fn provider_model_count(&self) -> (n: usize)
        ensures
            n == self.models().len(),
    {
        proof {
            use_type_invariant(self);
        }
        self.models.len()
    }

    /// The number of distinct model configurations.
    pub fn model_config_count(&self) -> (n: usize)
        ensures
            n == self.config_count(),
    {
        self.configs.len()
    }

    fn provider_position(&self, key: &str) -> (r: Option<usize>)
        ensures
            match r {
                Some(k) => find_provider(self.providers(), key@) == Some(k as int) && k
                    < self.providers().len(),
                None => find_provider(self.providers(), key@) is None,
            },
    {
        proof {
            lemma_find_provider_range(self.providers@, key@);
        }
        let n = self.providers.len();
        let mut i: usize = 0;
        while i < n
            invariant
                n == self.providers@.len(),
                i <= n,
                find_provider(self.providers@.take(i as int), key@) is None,
            decreases n - i,
        {
            proof {
                assert(self.providers@.take(i + 1).drop_last() =~= self.providers@.take(i as int));
            }
            if str_eq(self.providers[i].provider_key.as_str(), key) {
                proof {
                    lemma_find_provider_extends(self.providers@, i + 1, key@);
                }
                return Some(i);
            }
            i = i + 1;
        }
        assert(self.providers@.take(n as int) =~= self.providers@);
        None
    }

    /// The provider with this key (the first, should several share it).
    pub fn lookup_provider(&self, key: &str) -> (r: Option<&ProviderInfo>)
        ensures
            match find_provider(self.providers(), key@) {
                Some(i) => r matches Some(p) && *p == self.providers()[i].provider,
                None => r is None,
            },
    {
        let pos = self.provider_position(key);
        match pos {
            Some(i) => {
                assert(find_provider(self.providers(), key@) == Some(i as int));
                Some(&self.providers[i].provider)
            },
            None => None,
        }
    }

    /// The configuration of the model with this key offered by the provider
    /// with this key.
    pub fn lookup_provider_model(&self, provider_key: &str, model_key: &str) -> (r: Option<&ModelInfo>)
        ensures
            match find_provider(self.providers(), provider_key@) {
                Some(pi) => match find_model(self.models(), pi, model_key@) {
                    Some(mi) => r matches Some(m) && *m == self.models()[mi].model,
                    None => r is None,
                },
                None => r is None,
            },
    {
        proof {
            use_type_invariant(self);
            lemma_find_model_range(self.model_sources@, find_provider(self.providers@, provider_key@).unwrap_or(0), model_key@);
        }
        let pi = match self.provider_position(provider_key) {
            Some(p) => p,
            None => return None,
        };
        let n = self.models.len();
        let mut i: usize = 0;
        while i < n
            invariant
                n == self.models@.len(),
                n == self.model_sources@.len(),
                i <= n,
                pi < self.providers@.len(),
                find_provider(self.providers@, provider_key@) == Some(pi as int),
                find_model(self.model_sources@.take(i as int), pi as int, model_key@) is None,
                forall|k: int| #![trigger self.models@[k]]
                    0 <= k < self.models@.len() ==> {
                        let row = self.models@[k];
                        let src = self.model_sources@[k];
                        &&& row.config < self.configs@.len()
                        &&& self.configs@[row.config as int] == src.model
                        &&& row.provider_idx == src.provider_idx.spec_index()
                        &&& row.model_key@ == src.model_key@
                    },
            decreases n - i,
        {
            proof {
                assert(self.model_sources@.take(i + 1).drop_last() =~= self.model_sources@.take(i as int));
                assert(self.model_sources@.take(i + 1).last() == self.model_sources@[i as int]);
            }
            let row = &self.models[i];
            if (row.provider_idx as usize) == pi && str_eq(row.model_key.as_str(), model_key) {
                proof {
                    lemma_find_model_extends(self.model_sources@, i + 1, pi as int, model_key@);
                    assert(find_provider(self.providers(), provider_key@) == Some(pi as int));
                    assert(find_model(self.models(), pi as int, model_key@) == Some(i as int));
                }
                return Some(&self.configs[row.config]);
            }
            i = i + 1;
        }
        assert(self.model_sources@.take(n as int) =~= self.model_sources@);
        None
    }
}

/// The entries of `v` in reverse order, consuming it.
pub fn reversed<T>(v: Vec<T>) -> (r: Vec<T>)
    ensures
        r@ == v@.reverse(),
{
    let mut rest = v;
    let mut out: Vec<T> = Vec::new();
    let ghost all = rest@;
    while rest.len() > 0
        invariant
            rest@.len() <= all.len(),
            rest@ == all.take(rest@.len() as int),
            out@ == all.skip(rest@.len() as int).reverse(),
        decreases rest@.len(),
    {
        let ghost k = rest@.len();
        let x = rest.pop().unwrap();
        out.push(x);
        proof {
            assert(rest@ =~= all.take(k - 1));
            assert(out@ =~= all.skip(k - 1).reverse());
        }
    }
    assert(all.skip(0) =~= all);
    out
}

/// Copies a list of strings.
pub fn clone_strings(v: &Vec<String>) -> (r: Vec<String>)
    ensures
        r@ == v@,
{
    let mut r: Vec<String> = Vec::new();
    let mut i: usize = 0;
    while i < v.len()
        invariant
            i <= v@.len(),
            r@ == v@.take(i as int),
        decreases v@.len() - i,
    {
        r.push(v[i].clone());
        proof {
            assert(v@.take(i + 1) =~= v@.take(i as int).push(v@[i as int]));
        }
        i = i + 1;
    }
    assert(v@.take(v@.len() as int) =~= v@);
    r
}

proof fn lemma_find_provider_range(s: Seq<ProviderSource>, key: Seq<char>)
    ensures
        match find_provider(s, key) {
            Some(i) => 0 <= i < s.len() && s[i].provider_key@ == key,
            None => forall|i: int| 0 <= i < s.len() ==> s[i].provider_key@ != key,
        },
    decreases s.len(),
{
    if s.len() > 0 {
        lemma_find_provider_range(s.drop_last(), key);
        assert forall|i: int| 0 <= i < s.len() - 1 implies s[i] == s.drop_last()[i] by {}
    }
}

/// No model points past `n` providers when every model's provider index is
/// below `n`.
pub(crate) proof fn lemma_indices_in_range(ms: Seq<ProviderModelSource>, n: nat)
    requires
        forall|j: int| 0 <= j < ms.len() ==> #[trigger] ms[j].provider_idx.spec_index() < n,
    ensures
        first_out_of_range(ms, n) is None,
    decreases ms.len(),
{
    if ms.len() > 0 {
        assert forall|j: int| 0 <= j < ms.drop_last().len() implies #[trigger] ms.drop_last()[j].provider_idx.spec_index() < n by {
            assert(ms.drop_last()[j] == ms[j]);
        }
        lemma_indices_in_range(ms.drop_last(), n);
        assert(ms.last() == ms[ms.len() - 1]);
    }
}

proof fn lemma_find_model_range(s: Seq<ProviderModelSource>, pi: int, key: Seq<char>)
    ensures
        match find_model(s, pi, key) {
            Some(i) => 0 <= i < s.len() && s[i].model_key@ == key && s[i].provider_idx.spec_index() == pi,
            None => true,
        },
    decreases s.len(),
{
    if s.len() > 0 {
        lemma_find_model_range(s.drop_last(), pi, key);
    }
}

proof fn lemma_find_provider_extends(s: Seq<ProviderSource>, k: int, key: Seq<char>)
    requires
        0 <= k <= s.len(),
        find_provider(s.take(k), key) is Some,
    ensures
        find_provider(s, key) == find_provider(s.take(k), key),
    decreases s.len(),
{
    if k == s.len() {
        assert(s.take(k) =~= s);
    } else {
        assert(s.drop_last().take(k) =~= s.take(k));
        lemma_find_provider_extends(s.drop_last(), k, key);
    }
}

proof fn lemma_find_model_extends(s: Seq<ProviderModelSource>, k: int, pi: int, key: Seq<char>)
    requires
        0 <= k <= s.len(),
        find_model(s.take(k), pi, key) is Some,
    ensures
        find_model(s, pi, key) == find_model(s.take(k), pi, key),
    decreases s.len(),
{
    if k == s.len() {
        assert(s.take(k) =~= s);
    } else {
        assert(s.drop_last().take(k) =~= s.take(k));
        lemma_find_model_extends(s.drop_last(), k, pi, key);
    }
}

proof fn lemma_first_out_of_range_extends(s: Seq<ProviderModelSource>, k: int, n: nat)
    requires
        0 <= k <= s.len(),
        first_out_of_range(s.take(k), n) is Some,
    ensures
        first_out_of_range(s, n) == first_out_of_range(s.take(k), n),
    decreases s.len(),
{
    if k == s.len() {
        assert(s.take(k) =~= s);
    } else {
        assert(s.drop_last().take(k) =~= s.take(k));
        lemma_first_out_of_range_extends(s.drop_last(), k, n);
    }
}

/// Looking up the key of the provider at position `i` finds the first
/// provider with that key; when no earlier provider shares it, that is the
/// provider at `i` itself.
pub proof fn lemma_lookup_finds_provider(ps: Seq<ProviderSource>, i: int)
    requires
        0 <= i < ps.len(),
    ensures
        find_provider(ps, ps[i].provider_key@) matches Some(j) && 0 <= j <= i
            && ps[j].provider_key@ == ps[i].provider_key@
            && forall|q: int| 0 <= q < j ==> ps[q].provider_key@ != ps[i].provider_key@,
        (forall|q: int| 0 <= q < i ==> ps[q].provider_key@ != ps[i].provider_key@) ==> find_provider(
            ps,
            ps[i].provider_key@,
        ) == Some(i),
    decreases ps.len(),
{
    let key = ps[i].provider_key@;
    let init = ps.drop_last();
    lemma_find_provider_range(init, key);
    assert forall|q: int| 0 <= q < init.len() implies init[q] == ps[q] by {}
    if i < ps.len() - 1 {
        lemma_lookup_finds_provider(init, i);
    } else if let Some(j) = find_provider(init, key) {
        lemma_lookup_finds_provider(init, j);
    }
}

/// No two providers share a key.
pub open spec fn distinct_provider_keys(ps: Seq<ProviderSource>) -> bool {
    forall|i: int, j: int| 0 <= i < j < ps.len() ==> ps[i].provider_key@ != ps[j].provider_key@
}

/// Provider lookups do not depend on the order of the providers: two lists
/// holding the same providers, with distinct keys, find the same provider
/// for every key, or none in both.
pub proof fn lemma_provider_lookup_order_free(ps1: Seq<ProviderSource>, ps2: Seq<ProviderSource>, key: Seq<char>)
    requires
        ps1.to_multiset() == ps2.to_multiset(),
        distinct_provider_keys(ps1),
    ensures
        match (find_provider(ps1, key), find_provider(ps2, key)) {
            (Some(i), Some(j)) => ps1[i] == ps2[j],
            (None, None) => true,
            _ => false,
        },
{
    broadcast use vstd::seq_lib::group_to_multiset_ensures;
    lemma_find_provider_range(ps1, key);
    lemma_find_provider_range(ps2, key);
    match find_provider(ps1, key) {
        Some(i) => {
            assert(ps1.contains(ps1[i]));
            assert(ps1.to_multiset().count(ps1[i]) > 0);
            assert(ps2.to_multiset().count(ps1[i]) > 0);
            assert(ps2.contains(ps1[i]));
            let j0 = choose|j: int| 0 <= j < ps2.len() && ps2[j] == ps1[i];
            assert(ps2[j0].provider_key@ == key);
            match find_provider(ps2, key) {
                Some(j) => {
                    assert(ps2.contains(ps2[j]));
                    assert(ps2.to_multiset().count(ps2[j]) > 0);
                    assert(ps1.to_multiset().count(ps2[j]) > 0);
                    assert(ps1.contains(ps2[j]));
                    let i0 = choose|q: int| 0 <= q < ps1.len() && ps1[q] == ps2[j];
                    assert(ps1[i0].provider_key@ == key);
                    assert(i0 == i);
                },
                None => {},
            }
        },
        None => {
            match find_provider(ps2, key) {
                Some(j) => {
                    assert(ps2.contains(ps2[j]));
                    assert(ps2.to_multiset().count(ps2[j]) > 0);
                    assert(ps1.to_multiset().count(ps2[j]) > 0);
                    assert(ps1.contains(ps2[j]));
                    let i0 = choose|q: int| 0 <= q < ps1.len() && ps1[q] == ps2[j];
                    assert(ps1[i0].provider_key@ == key);
                },
                None => {},
            }
        },
    }
}

/// Looking up, for the provider at position `pi`, the key of the model at
/// position `k` (a model of that provider) finds the first such model; when
/// no earlier model of the provider shares the key, that is the model at `k`.
pub proof fn lemma_lookup_finds_model(ms: Seq<ProviderModelSource>, pi: int, k: int)
    requires
        0 <= k < ms.len(),
        ms[k].provider_idx.spec_index() == pi,
    ensures
        find_model(ms, pi, ms[k].model_key@) matches Some(j) && 0 <= j <= k
            && ms[j].provider_idx.spec_index() == pi && ms[j].model_key@ == ms[k].model_key@,
        (forall|q: int|
            0 <= q < k && ms[q].provider_idx.spec_index() == pi ==> ms[q].model_key@ != ms[k].model_key@)
            ==> find_model(ms, pi, ms[k].model_key@) == Some(k),
    decreases ms.len(),
{
    let key = ms[k].model_key@;
    if k == ms.len() - 1 {
        match find_model(ms.drop_last(), pi, key) {
            Some(j) => {
                lemma_find_model_range(ms.drop_last(), pi, key);
                assert(ms.drop_last()[j] == ms[j]);
            },
            None => {},
        }
    } else {
        lemma_lookup_finds_model(ms.drop_last(), pi, k);
        assert(ms.drop_last()[k] == ms[k]);
        match find_model(ms.drop_last(), pi, key) {
            Some(j) => {
                assert(ms.drop_last()[j] == ms[j]);
                assert forall|q: int|
                    0 <= q < k && ms[q].provider_idx.spec_index() == pi implies #[trigger] ms.drop_last()[q]
                    == ms[q] by {}
            },
            None => {},
        }
    }
}

} // verus!
