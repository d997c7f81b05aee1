//! Choosing how to construct a model client for a catalog provider: which
//! client, which credential, which endpoint.
//!
//! The credentials are looked up by the caller beforehand (the values of the
//! environment variables the catalog lists, and the AWS names); constructing
//! the client from the resulting plan is also the caller's part.
use crate::models::{find_provider, ModelCatalog, ProviderType};
use crate::text::{
    concat2, has_prefix, has_suffix, join, owned, push_str, str_eq, strip_trailing,
    strip_trailing_str, to_chars, trim, trim_string, views,
};
use vstd::prelude::*;

verus! {

/// Cohere's fixed endpoint.
pub const COHERE_BASE_URL: &'static str = "https://api.cohere.ai/v2";
/// OpenRouter's fixed endpoint.
pub const OPENROUTER_BASE_URL: &'static str = "https://openrouter.ai/api/v1";
/// Groq's fixed endpoint.
pub const GROQ_BASE_URL: &'static str = "https://api.groq.com/openai/v1";
/// Client name used for OpenAI-compatible providers.
pub const OPENAI_COMPATIBLE_PROVIDER: &'static str = "openai";
/// AWS access key variable.
pub const AWS_ACCESS_KEY_ID_ENV_VAR: &'static str = "AWS_ACCESS_KEY_ID";
/// AWS secret key variable.
pub const AWS_SECRET_ACCESS_KEY_ENV_VAR: &'static str = "AWS_SECRET_ACCESS_KEY";
/// AWS session token variable.
pub const AWS_SESSION_TOKEN_ENV_VAR: &'static str = "AWS_SESSION_TOKEN";
/// AWS region variable.
pub const AWS_REGION_ENV_VAR: &'static str = "AWS_REGION";
/// AWS fallback region variable.
pub const AWS_DEFAULT_REGION_ENV_VAR: &'static str = "AWS_DEFAULT_REGION";

/// A configuration error of model construction.
#[derive(Debug, Clone, PartialEq, Eq)]
pub struct ModelError {
    /// What is wrong.
    pub message: String,
}

/// Credential values found for variable names.
#[derive(Debug, Clone)]
pub struct CredentialValues {
    values: Vec<(String, String)>,
}

/// The value of the first entry with this name.
pub open spec fn lookup_value(entries: Seq<(Seq<char>, Seq<char>)>, name: Seq<char>) -> Option<Seq<char>>
    decreases entries.len(),
{
    if entries.len() == 0 {
        None
    } else if entries[0].0 == name {
        Some(entries[0].1)
    } else {
        lookup_value(entries.drop_first(), name)
    }
}

impl CredentialValues {
    /// The name/value pairs, in the order they were added.
    pub closed spec fn entries(&self) -> Seq<(Seq<char>, Seq<char>)> {
        self.values@.map_values(|e: (String, String)| (e.0@, e.1@))
    }

    /// No credentials.
    pub fn new() -> (c: Self)
        ensures
            c.entries() == Seq::<(Seq<char>, Seq<char>)>::empty(),
    {
        CredentialValues { values: Vec::new() }
    }

    /// Records the value found for a name.
    pub fn insert(&mut self, name: String, value: String)
        ensures
            final(self).entries() == old(self).entries().push((name@, value@)),
    {
        self.values.push((name, value));
        proof {
            assert(self.entries() =~= old(self).entries().push((name@, value@)));
        }
    }

    /// The value for a name (the first one recorded).
    pub fn resolve(&self, name: &str) -> (r: Option<String>)
        ensures
            match lookup_value(self.entries(), name@) {
                Some(v) => r matches Some(s) && s@ == v,
                None => r is None,
            },
    {
        let n = self.values.len();
        let mut i: usize = 0;
        assert(self.entries().skip(0) =~= self.entries());
        while i < n
            invariant
                n == self.values@.len(),
                i <= n,
                lookup_value(self.entries(), name@) == lookup_value(self.entries().skip(i as int), name@),
            decreases n - i,
        {
            let ghost rest = self.entries().skip(i as int);
            assert(rest[0] == (self.values@[i as int].0@, self.values@[i as int].1@));
            assert(rest.drop_first() =~= self.entries().skip(i + 1));
            if str_eq(self.values[i].0.as_str(), name) {
                return Some(self.values[i].1.clone());
            }
            i = i + 1;
        }
        None
    }
}

/// A catalog URL without surrounding whitespace and trailing slashes; `None`
/// when nothing is left.
pub open spec fn normalized_url_spec(api_url: Seq<char>) -> Option<Seq<char>> {
    let t = strip_trailing(trim(api_url), '/');
    if t.len() == 0 {
        None
    } else {
        Some(t)
    }
}

/// Normalises a catalog URL; an empty one means the client's default.
pub fn normalized_api_url(api_url: &str) -> (r: Option<String>)
    ensures
        match normalized_url_spec(api_url@) {
            Some(u) => r matches Some(s) && s@ == u,
            None => r is None,
        },
{
    let t = trim_string(api_url);
    let s = strip_trailing_str(t.as_str(), '/');
    if s.as_str().is_empty() {
        None
    } else {
        Some(s)
    }
}

/// The kinds of catalog variable the clients read.
#[derive(Debug, Clone, Copy, PartialEq, Eq, Structural)]
pub enum EnvKind {
    /// A secret: `*_API_KEY`, `*_ACCESS_TOKEN`, `*_TOKEN`.
    Credential,
    /// An Azure resource name: `*_RESOURCE_NAME`.
    AzureResourceName,
    /// A ChatGPT account id: `*_ACCOUNT_ID`.
    AccountId,
    /// An Antigravity project id: `*_PROJECT_ID`.
    ProjectId,
}

/// Whether a variable name is of the given kind, by its suffix.
pub open spec fn env_is(kind: EnvKind, name: Seq<char>) -> bool {
    match kind {
        EnvKind::Credential => has_suffix(name, "_API_KEY"@) || has_suffix(name, "_ACCESS_TOKEN"@)
            || has_suffix(name, "_TOKEN"@),
        EnvKind::AzureResourceName => has_suffix(name, "_RESOURCE_NAME"@),
        EnvKind::AccountId => has_suffix(name, "_ACCOUNT_ID"@),
        EnvKind::ProjectId => has_suffix(name, "_PROJECT_ID"@),
    }
}

fn ends_with_str(s: &str, p: &str) -> (b: bool)
    ensures
        b == has_suffix(s@, p@),
{
    let v = to_chars(s);
    let w = to_chars(p);
    crate::text::ends_with(v.as_slice(), w.as_slice())
}

/// Whether a variable name is of the given kind.
pub fn env_var_is(kind: EnvKind, name: &str) -> (b: bool)
    ensures
        b == env_is(kind, name@),
{
    match kind {
        EnvKind::Credential => ends_with_str(name, "_API_KEY") || ends_with_str(name, "_ACCESS_TOKEN")
            || ends_with_str(name, "_TOKEN"),
        EnvKind::AzureResourceName => ends_with_str(name, "_RESOURCE_NAME"),
        EnvKind::AccountId => ends_with_str(name, "_ACCOUNT_ID"),
        EnvKind::ProjectId => ends_with_str(name, "_PROJECT_ID"),
    }
}

/// The value of the first listed variable of the kind that has a value.
pub open spec fn first_env_value(creds: Seq<(Seq<char>, Seq<char>)>, env_vars: Seq<Seq<char>>, kind: EnvKind) -> Option<Seq<char>>
    decreases env_vars.len(),
{
    if env_vars.len() == 0 {
        None
    } else if env_is(kind, env_vars[0]) && lookup_value(creds, env_vars[0]) is Some {
        lookup_value(creds, env_vars[0])
    } else {
        first_env_value(creds, env_vars.drop_first(), kind)
    }
}

/// Finds the value of the first listed variable of the kind that is set.
pub fn first_matching_env_value(credentials: &CredentialValues, env_vars: &Vec<String>, kind: EnvKind) -> (r: Option<String>)
    ensures
        match first_env_value(credentials.entries(), views(env_vars@), kind) {
            Some(v) => r matches Some(s) && s@ == v,
            None => r is None,
        },
{
    let n = env_vars.len();
    let mut i: usize = 0;
    assert(views(env_vars@).skip(0) =~= views(env_vars@));
    while i < n
        invariant
            n == env_vars@.len(),
            i <= n,
            first_env_value(credentials.entries(), views(env_vars@), kind) == first_env_value(
                credentials.entries(),
                views(env_vars@).skip(i as int),
                kind,
            ),
        decreases n - i,
    {
        let ghost rest = views(env_vars@).skip(i as int);
        assert(rest[0] == env_vars@[i as int]@);
        assert(rest.drop_first() =~= views(env_vars@).skip(i + 1));
        if env_var_is(kind, env_vars[i].as_str()) {
            match credentials.resolve(env_vars[i].as_str()) {
                Some(v) => return Some(v),
                None => {},
            }
        }
        i = i + 1;
    }
    assert(views(env_vars@).skip(n as int).len() == 0);
    None
}

/// The listed variable names of the kind, in order.
pub open spec fn names_of_kind(env_vars: Seq<Seq<char>>, kind: EnvKind) -> Seq<Seq<char>>
    decreases env_vars.len(),
{
    if env_vars.len() == 0 {
        Seq::empty()
    } else if env_is(kind, env_vars.last()) {
        names_of_kind(env_vars.drop_last(), kind).push(env_vars.last())
    } else {
        names_of_kind(env_vars.drop_last(), kind)
    }
}

/// The names offered in an error message: those of the kind, comma
/// separated, or a note that the catalog lists none.
pub open spec fn names_text(env_vars: Seq<Seq<char>>, kind: EnvKind) -> Seq<char> {
    let names = names_of_kind(env_vars, kind);
    if names.len() == 0 {
        "<none listed in catalog>"@
    } else {
        join(names, ", "@)
    }
}

proof fn lemma_kind_nonempty(kind: EnvKind, name: Seq<char>)
    requires
        env_is(kind, name),
    ensures
        name.len() > 0,
{
    reveal_strlit("_API_KEY");
    reveal_strlit("_ACCESS_TOKEN");
    reveal_strlit("_TOKEN");
    reveal_strlit("_RESOURCE_NAME");
    reveal_strlit("_ACCOUNT_ID");
    reveal_strlit("_PROJECT_ID");
}

proof fn lemma_join_empty_iff(names: Seq<Seq<char>>, sep: Seq<char>)
    requires
        forall|i: int| 0 <= i < names.len() ==> names[i].len() > 0,
    ensures
        (join(names, sep).len() == 0) == (names.len() == 0),
    decreases names.len(),
{
    if names.len() > 1 {
        lemma_join_empty_iff(names.drop_last(), sep);
    }
}

proof fn lemma_names_nonempty(env_vars: Seq<Seq<char>>, kind: EnvKind)
    ensures
        forall|i: int| 0 <= i < names_of_kind(env_vars, kind).len() ==> #[trigger] names_of_kind(env_vars, kind)[i].len() > 0,
    decreases env_vars.len(),
{
    if env_vars.len() > 0 {
        lemma_names_nonempty(env_vars.drop_last(), kind);
        if env_is(kind, env_vars.last()) {
            lemma_kind_nonempty(kind, env_vars.last());
            let p = names_of_kind(env_vars.drop_last(), kind);
            assert forall|i: int| 0 <= i < p.push(env_vars.last()).len() implies #[trigger] p.push(env_vars.last())[i].len() > 0 by {
                if i < p.len() {
                    assert(p[i].len() > 0);
                }
            }
        }
    }
}

/// Lists the variable names of the kind for an error message.
pub fn matching_env_names(env_vars: &Vec<String>, kind: EnvKind) -> (s: String)
    ensures
        s@ == names_text(views(env_vars@), kind),
{
    let n = env_vars.len();
    let mut names = String::new();
    let mut i: usize = 0;
    while i < n
        invariant
            n == env_vars@.len(),
            i <= n,
            names@ == join(names_of_kind(views(env_vars@).take(i as int), kind), ", "@),
        decreases n - i,
    {
        let ghost vs = views(env_vars@);
        proof {
            assert(vs.take(i + 1).drop_last() =~= vs.take(i as int));
            assert(vs.take(i + 1).last() == env_vars@[i as int]@);
            lemma_names_nonempty(vs.take(i as int), kind);
            lemma_join_empty_iff(names_of_kind(vs.take(i as int), kind), ", "@);
        }
        if env_var_is(kind, env_vars[i].as_str()) {
            let ghost before = names_of_kind(vs.take(i as int), kind);
            if !names.as_str().is_empty() {
                push_str(&mut names, ", ");
            }
            push_str(&mut names, env_vars[i].as_str());
            proof {
                let after = names_of_kind(vs.take(i + 1), kind);
                assert(after == before.push(env_vars@[i as int]@));
                assert(after.drop_last() == before);
                if before.len() == 0 {
                    assert(after.len() == 1);
                    assert(names@ =~= join(after, ", "@));
                } else {
                    assert(names@ =~= join(after, ", "@));
                }
            }
        }
        i = i + 1;
    }
    assert(views(env_vars@).take(n as int) =~= views(env_vars@));
    proof {
        lemma_names_nonempty(views(env_vars@), kind);
        lemma_join_empty_iff(names_of_kind(views(env_vars@), kind), ", "@);
    }
    if names.as_str().is_empty() {
        push_str(&mut names, "<none listed in catalog>");
    }
    names
}

/// The value of the first of `names` that has one.
pub open spec fn first_named_value(creds: Seq<(Seq<char>, Seq<char>)>, names: Seq<Seq<char>>) -> Option<Seq<char>>
    decreases names.len(),
{
    if names.len() == 0 {
        None
    } else if lookup_value(creds, names[0]) is Some {
        lookup_value(creds, names[0])
    } else {
        first_named_value(creds, names.drop_first())
    }
}

/// Finds the value of the first of the given names that has one.
pub fn first_resolved_name(credentials: &CredentialValues, names: &Vec<&str>) -> (r: Option<String>)
    ensures
        match first_named_value(credentials.entries(), names@.map_values(|s: &str| s@)) {
            Some(v) => r matches Some(s) && s@ == v,
            None => r is None,
        },
{
    let ghost vs = names@.map_values(|s: &str| s@);
    let n = names.len();
    let mut i: usize = 0;
    assert(vs.skip(0) =~= vs);
    while i < n
        invariant
            n == names@.len(),
            vs == names@.map_values(|s: &str| s@),
            i <= n,
            first_named_value(credentials.entries(), vs) == first_named_value(credentials.entries(), vs.skip(i as int)),
        decreases n - i,
    {
        let ghost rest = vs.skip(i as int);
        assert(rest[0] == names@[i as int]@);
        assert(rest.drop_first() =~= vs.skip(i + 1));
        match credentials.resolve(names[i]) {
            Some(v) => return Some(v),
            None => {},
        }
        i = i + 1;
    }
    assert(vs.skip(n as int).len() == 0);
    None
}

/// The message for a missing value of the kind.
pub open spec fn missing_env_message(provider_key: Seq<char>, provider_name: Seq<char>, what: Seq<char>, env_vars: Seq<Seq<char>>, kind: EnvKind) -> Seq<char> {
    "provider `"@ + provider_key + "` mapped to serdes `"@ + provider_name + "` requires "@ + what
        + "; set one of: "@ + names_text(env_vars, kind)
}

/// Requires a set variable of the kind among the listed ones.
pub fn require_env_value(
    credentials: &CredentialValues,
    provider_key: &str,
    provider_name: &str,
    env_vars: &Vec<String>,
    what: &str,
    kind: EnvKind,
) -> (r: Result<String, ModelError>)
    ensures
        match first_env_value(credentials.entries(), views(env_vars@), kind) {
            Some(v) => r matches Ok(s) && s@ == v,
            None => r matches Err(e) && e.message@ == missing_env_message(
                provider_key@,
                provider_name@,
                what@,
                views(env_vars@),
                kind,
            ),
        },
{
    if let Some(value) = first_matching_env_value(credentials, env_vars, kind) {
        return Ok(value);
    }
    let mut m = concat2("provider `", provider_key);
    push_str(&mut m, "` mapped to serdes `");
    push_str(&mut m, provider_name);
    push_str(&mut m, "` requires ");
    push_str(&mut m, what);
    push_str(&mut m, "; set one of: ");
    let names = matching_env_names(env_vars, kind);
    push_str(&mut m, names.as_str());
    Err(ModelError { message: m })
}

/// The message for a missing named value.
pub open spec fn missing_named_message(provider_key: Seq<char>, provider_name: Seq<char>, name: Seq<char>, what: Seq<char>) -> Seq<char> {
    "provider `"@ + provider_key + "` mapped to serdes `"@ + provider_name + "` requires "@ + what
        + "; set `"@ + name + "`"@
}

/// Requires a value for a specific name.
pub fn require_named_value(
    credentials: &CredentialValues,
    provider_key: &str,
    provider_name: &str,
    name: &str,
    what: &str,
) -> (r: Result<String, ModelError>)
    ensures
        match lookup_value(credentials.entries(), name@) {
            Some(v) => r matches Ok(s) && s@ == v,
            None => r matches Err(e) && e.message@ == missing_named_message(
                provider_key@,
                provider_name@,
                name@,
                what@,
            ),
        },
{
    if let Some(value) = credentials.resolve(name) {
        return Ok(value);
    }
    let mut m = concat2("provider `", provider_key);
    push_str(&mut m, "` mapped to serdes `");
    push_str(&mut m, provider_name);
    push_str(&mut m, "` requires ");
    push_str(&mut m, what);
    push_str(&mut m, "; set `");
    push_str(&mut m, name);
    push_str(&mut m, "`");
    Err(ModelError { message: m })
}

/// Whether two URLs are equal once trailing slashes are dropped.
pub fn urls_equal_ignoring_slash(lhs: &str, rhs: &str) -> (b: bool)
    ensures
        b == (strip_trailing(lhs@, '/') == strip_trailing(rhs@, '/')),
{
    let a = strip_trailing_str(lhs, '/');
    let b = strip_trailing_str(rhs, '/');
    str_eq(a.as_str(), b.as_str())
}

/// The message refusing a URL override for a client with a fixed endpoint.
pub open spec fn fixed_endpoint_message(provider_key: Seq<char>, provider_name: Seq<char>, api_url: Seq<char>, expected: Seq<char>) -> Seq<char> {
    "provider `"@ + provider_key + "` mapped to serdes `"@ + provider_name + "` uses catalog api url `"@
        + api_url + "`, but the SerdesAI `"@ + provider_name
        + "` model does not support overriding its built-in endpoint `"@ + expected + "`"@
}

/// Refuses a catalog URL other than the fixed endpoint of the client.
pub fn validate_fixed_endpoint(provider_key: &str, provider_name: &str, api_url: Option<&str>, expected_url: &str) -> (r: Result<(), ModelError>)
    ensures
        match api_url {
            Some(u) => if strip_trailing(u@, '/') == strip_trailing(expected_url@, '/') {
                r is Ok
            } else {
                r matches Err(e) && e.message@ == fixed_endpoint_message(
                    provider_key@,
                    provider_name@,
                    u@,
                    expected_url@,
                )
            },
            None => r is Ok,
        },
{
    if let Some(u) = api_url {
        if !urls_equal_ignoring_slash(u, expected_url) {
            let mut m = concat2("provider `", provider_key);
            push_str(&mut m, "` mapped to serdes `");
            push_str(&mut m, provider_name);
            push_str(&mut m, "` uses catalog api url `");
            push_str(&mut m, u);
            push_str(&mut m, "`, but the SerdesAI `");
            push_str(&mut m, provider_name);
            push_str(&mut m, "` model does not support overriding its built-in endpoint `");
            push_str(&mut m, expected_url);
            push_str(&mut m, "`");
            return Err(ModelError { message: m });
        }
    }
    Ok(())
}

/// An Azure endpoint without surrounding whitespace, trailing slashes, and a
/// trailing `/openai/v1` or `/openai`.
pub open spec fn azure_endpoint_spec(endpoint: Seq<char>) -> Seq<char> {
    let t = strip_trailing(trim(endpoint), '/');
    if has_suffix(t, "/openai/v1"@) {
        t.take(t.len() - 10)
    } else if has_suffix(t, "/openai"@) {
        t.take(t.len() - 7)
    } else {
        t
    }
}

/// Normalises an Azure endpoint copied from the portal.
pub fn normalize_azure_endpoint(endpoint: &str) -> (s: String)
    ensures
        s@ == azure_endpoint_spec(endpoint@),
{
    let t = trim_string(endpoint);
    let t = strip_trailing_str(t.as_str(), '/');
    let v = to_chars(t.as_str());
    let s1 = to_chars("/openai/v1");
    let s2 = to_chars("/openai");
    proof {
        reveal_strlit("/openai/v1");
        reveal_strlit("/openai");
    }
    if crate::text::ends_with(v.as_slice(), s1.as_slice()) {
        crate::text::from_chars(vstd::slice::slice_subrange(v.as_slice(), 0, v.len() - 10))
    } else if crate::text::ends_with(v.as_slice(), s2.as_slice()) {
        crate::text::from_chars(vstd::slice::slice_subrange(v.as_slice(), 0, v.len() - 7))
    } else {
        t
    }
}

/// The Azure endpoint for a resource name, or the normalised URL when a full
/// URL is given.
pub open spec fn azure_resource_endpoint(resource: Seq<char>) -> Seq<char> {
    let t = strip_trailing(trim(resource), '/');
    if has_prefix(t, "http://"@) || has_prefix(t, "https://"@) {
        azure_endpoint_spec(t)
    } else {
        "https://"@ + t + ".openai.azure.com"@
    }
}

fn starts_with_str(s: &str, p: &str) -> (b: bool)
    ensures
        b == has_prefix(s@, p@),
{
    let v = to_chars(s);
    let w = to_chars(p);
    crate::text::starts_with(v.as_slice(), w.as_slice())
}

/// Builds the Azure endpoint from a resource name.
pub fn azure_endpoint_from_resource(resource_name: &str) -> (s: String)
    ensures
        s@ == azure_resource_endpoint(resource_name@),
{
    let t = trim_string(resource_name);
    let t = strip_trailing_str(t.as_str(), '/');
    if starts_with_str(t.as_str(), "http://") || starts_with_str(t.as_str(), "https://") {
        return normalize_azure_endpoint(t.as_str());
    }
    let mut e = owned("https://");
    push_str(&mut e, t.as_str());
    push_str(&mut e, ".openai.azure.com");
    e
}


/// The error for a provider whose client support was left out of the build:
/// it names the provider and the cargo feature that brings it in.
pub fn feature_disabled_error(feature: &str, provider_name: &str) -> (e: ModelError)
    ensures
        e.message@ == "provider `"@ + provider_name@ + "` is not enabled in reloaded-code-serdesai; rebuild with `--features "@
            + feature@ + "`"@,
{
    let mut m = owned("provider `");
    push_str(&mut m, provider_name);
    push_str(&mut m, "` is not enabled in reloaded-code-serdesai; rebuild with `--features ");
    push_str(&mut m, feature);
    push_str(&mut m, "`");
    ModelError { message: m }
}

/// How to construct the model client for a provider.
#[derive(Debug, Clone, PartialEq, Eq)]
pub enum ModelPlan {
    /// OpenAI chat completions, optionally at another base URL.
    OpenAiChat { model: String, api_key: String, base_url: Option<String> },
    /// OpenAI responses, optionally at another base URL.
    OpenAiResponses { model: String, api_key: String, base_url: Option<String> },
    /// Anthropic, optionally at another base URL.
    Anthropic { model: String, api_key: String, base_url: Option<String> },
    /// Google, optionally at another base URL.
    Google { model: String, api_key: String, base_url: Option<String> },
    /// Groq at its fixed endpoint.
    Groq { model: String, api_key: String },
    /// Mistral, optionally at another base URL.
    Mistral { model: String, api_key: String, base_url: Option<String> },
    /// Ollama, optionally at another base URL; no credential.
    Ollama { model: String, base_url: Option<String> },
    /// Bedrock with AWS credentials and an optional region.
    Bedrock {
        model: String,
        access_key_id: String,
        secret_access_key: String,
        session_token: Option<String>,
        region: Option<String>,
    },
    /// Azure OpenAI at an endpoint.
    Azure { model: String, endpoint: String, api_key: String },
    /// OpenRouter at its fixed endpoint.
    OpenRouter { model: String, api_key: String },
    /// Hugging Face, optionally at another endpoint.
    HuggingFace { model: String, token: String, endpoint: Option<String> },
    /// Cohere at its fixed endpoint.
    Cohere { model: String, api_key: String },
    /// ChatGPT through OAuth, optionally at another base URL and for an
    /// account.
    ChatGptOAuth { model: String, access_token: String, api_base_url: Option<String>, account_id: Option<String> },
    /// Anthropic's coding agent through OAuth, optionally at another base URL.
    ClaudeCodeOAuth { model: String, access_token: String, api_base_url: Option<String> },
    /// Antigravity with a project (the client's default when `None`),
    /// optionally at another endpoint.
    Antigravity { model: String, access_token: String, project_id: Option<String>, endpoint: Option<String> },
}

/// The client name of a plan.
pub open spec fn plan_provider_name(p: ModelPlan) -> Seq<char> {
    match p {
        ModelPlan::OpenAiChat { .. } | ModelPlan::OpenAiResponses { .. } => "openai"@,
        ModelPlan::Anthropic { .. } => "anthropic"@,
        ModelPlan::Google { .. } => "google"@,
        ModelPlan::Groq { .. } => "groq"@,
        ModelPlan::Mistral { .. } => "mistral"@,
        ModelPlan::Ollama { .. } => "ollama"@,
        ModelPlan::Bedrock { .. } => "bedrock"@,
        ModelPlan::Azure { .. } => "azure"@,
        ModelPlan::OpenRouter { .. } => "openrouter"@,
        ModelPlan::HuggingFace { .. } => "huggingface"@,
        ModelPlan::Cohere { .. } => "cohere"@,
        ModelPlan::ChatGptOAuth { .. } => "chatgpt-oauth"@,
        ModelPlan::ClaudeCodeOAuth { .. } => "anthropic-code-oauth"@,
        ModelPlan::Antigravity { .. } => "antigravity"@,
    }
}

/// The model name of a plan.
pub open spec fn plan_model(p: ModelPlan) -> Seq<char> {
    match p {
        ModelPlan::OpenAiChat { model, .. } => model@,
        ModelPlan::OpenAiResponses { model, .. } => model@,
        ModelPlan::Anthropic { model, .. } => model@,
        ModelPlan::Google { model, .. } => model@,
        ModelPlan::Groq { model, .. } => model@,
        ModelPlan::Mistral { model, .. } => model@,
        ModelPlan::Ollama { model, .. } => model@,
        ModelPlan::Bedrock { model, .. } => model@,
        ModelPlan::Azure { model, .. } => model@,
        ModelPlan::OpenRouter { model, .. } => model@,
        ModelPlan::HuggingFace { model, .. } => model@,
        ModelPlan::Cohere { model, .. } => model@,
        ModelPlan::ChatGptOAuth { model, .. } => model@,
        ModelPlan::ClaudeCodeOAuth { model, .. } => model@,
        ModelPlan::Antigravity { model, .. } => model@,
    }
}

impl ModelPlan {
    /// The client name.
    pub fn provider_name(&self) -> (s: &'static str)
        ensures
            s@ == plan_provider_name(*self),
    {
        match self {
            ModelPlan::OpenAiChat { .. } | ModelPlan::OpenAiResponses { .. } => "openai",
            ModelPlan::Anthropic { .. } => "anthropic",
            ModelPlan::Google { .. } => "google",
            ModelPlan::Groq { .. } => "groq",
            ModelPlan::Mistral { .. } => "mistral",
            ModelPlan::Ollama { .. } => "ollama",
            ModelPlan::Bedrock { .. } => "bedrock",
            ModelPlan::Azure { .. } => "azure",
            ModelPlan::OpenRouter { .. } => "openrouter",
            ModelPlan::HuggingFace { .. } => "huggingface",
            ModelPlan::Cohere { .. } => "cohere",
            ModelPlan::ChatGptOAuth { .. } => "chatgpt-oauth",
            ModelPlan::ClaudeCodeOAuth { .. } => "anthropic-code-oauth",
            ModelPlan::Antigravity { .. } => "antigravity",
        }
    }

    /// The model name.
    pub fn model(&self) -> (s: &str)
        ensures
            s@ == plan_model(*self),
    {
        match self {
            ModelPlan::OpenAiChat { model, .. } => model.as_str(),
            ModelPlan::OpenAiResponses { model, .. } => model.as_str(),
            ModelPlan::Anthropic { model, .. } => model.as_str(),
            ModelPlan::Google { model, .. } => model.as_str(),
            ModelPlan::Groq { model, .. } => model.as_str(),
            ModelPlan::Mistral { model, .. } => model.as_str(),
            ModelPlan::Ollama { model, .. } => model.as_str(),
            ModelPlan::Bedrock { model, .. } => model.as_str(),
            ModelPlan::Azure { model, .. } => model.as_str(),
            ModelPlan::OpenRouter { model, .. } => model.as_str(),
            ModelPlan::HuggingFace { model, .. } => model.as_str(),
            ModelPlan::Cohere { model, .. } => model.as_str(),
            ModelPlan::ChatGptOAuth { model, .. } => model.as_str(),
            ModelPlan::ClaudeCodeOAuth { model, .. } => model.as_str(),
            ModelPlan::Antigravity { model, .. } => model.as_str(),
        }
    }

    /// The `provider:model` spec of the plan, for diagnostics.
    pub fn spec(&self) -> (s: String)
        ensures
            s@ == plan_provider_name(*self) + seq![':'] + plan_model(*self),
    {
        let mut s = owned(self.provider_name());
        crate::text::push_char(&mut s, ':');
        push_str(&mut s, self.model());
        s
    }
}

/// An optional string holds the optional text.
pub open spec fn opt_is(o: Option<String>, v: Option<Seq<char>>) -> bool {
    match (o, v) {
        (Some(s), Some(t)) => s@ == t,
        (None, None) => true,
        _ => false,
    }
}

fn opt_str(o: &Option<String>) -> (r: Option<&str>)
    ensures
        match *o {
            Some(s) => r matches Some(t) && t@ == s@,
            None => r is None,
        },
{
    match o {
        Some(s) => Some(s.as_str()),
        None => None,
    }
}

fn opt_clone(o: &Option<String>) -> (r: Option<String>)
    ensures
        match *o {
            Some(s) => r matches Some(t) && t@ == s@,
            None => r is None,
        },
{
    match o {
        Some(s) => Some(s.clone()),
        None => None,
    }
}

/// The plan for a keyed client: the first set credential of the listed
/// variables, or the error naming them.
pub open spec fn keyed_result(
    creds: Seq<(Seq<char>, Seq<char>)>,
    key: Seq<char>,
    name: Seq<char>,
    env: Seq<Seq<char>>,
    what: Seq<char>,
    r: Result<ModelPlan, ModelError>,
    accept: spec_fn(ModelPlan, Seq<char>) -> bool,
) -> bool {
    match first_env_value(creds, env, EnvKind::Credential) {
        None => r matches Err(e) && e.message@ == missing_env_message(key, name, what, env, EnvKind::Credential),
        Some(k) => r matches Ok(p) && accept(p, k),
    }
}

/// What the plan for a provider of type `t` is, given its key, the model,
/// its normalised URL, its listed variables and the credentials found.
pub open spec fn plan_spec(
    t: ProviderType,
    key: Seq<char>,
    model: Seq<char>,
    url: Option<Seq<char>>,
    env: Seq<Seq<char>>,
    creds: Seq<(Seq<char>, Seq<char>)>,
    r: Result<ModelPlan, ModelError>,
) -> bool {
    match t {
        ProviderType::Unknown => r matches Err(e) && e.message@ == "provider `"@ + key
            + "` has no SerdesAI mapping because its catalog provider type is unknown"@,
        ProviderType::OpenAiCompletions => keyed_result(creds, key, "openai"@, env, "a credential"@, r,
            |p: ModelPlan, k: Seq<char>| p matches ModelPlan::OpenAiChat { model: m, api_key, base_url }
                && m@ == model && api_key@ == k && opt_is(base_url, url)),
        ProviderType::OpenAiResponses => keyed_result(creds, key, "openai"@, env, "a credential"@, r,
            |p: ModelPlan, k: Seq<char>| p matches ModelPlan::OpenAiResponses { model: m, api_key, base_url }
                && m@ == model && api_key@ == k && opt_is(base_url, url)),
        ProviderType::Anthropic => keyed_result(creds, key, "anthropic"@, env, "an API key"@, r,
            |p: ModelPlan, k: Seq<char>| p matches ModelPlan::Anthropic { model: m, api_key, base_url }
                && m@ == model && api_key@ == k && opt_is(base_url, url)),
        ProviderType::Google => keyed_result(creds, key, "google"@, env, "an API key"@, r,
            |p: ModelPlan, k: Seq<char>| p matches ModelPlan::Google { model: m, api_key, base_url }
                && m@ == model && api_key@ == k && opt_is(base_url, url)),
        ProviderType::Mistral => keyed_result(creds, key, "mistral"@, env, "an API key"@, r,
            |p: ModelPlan, k: Seq<char>| p matches ModelPlan::Mistral { model: m, api_key, base_url }
                && m@ == model && api_key@ == k && opt_is(base_url, url)),
        ProviderType::HuggingFace => keyed_result(creds, key, "huggingface"@, env, "a token"@, r,
            |p: ModelPlan, k: Seq<char>| p matches ModelPlan::HuggingFace { model: m, token, endpoint }
                && m@ == model && token@ == k && opt_is(endpoint, url)),
        ProviderType::Groq => fixed_result(creds, key, "groq"@, GROQ_BASE_URL@, url, env, r,
            |p: ModelPlan, k: Seq<char>| p matches ModelPlan::Groq { model: m, api_key } && m@ == model
                && api_key@ == k),
        ProviderType::OpenRouter => fixed_result(creds, key, "openrouter"@, OPENROUTER_BASE_URL@, url, env, r,
            |p: ModelPlan, k: Seq<char>| p matches ModelPlan::OpenRouter { model: m, api_key } && m@ == model
                && api_key@ == k),
        ProviderType::Cohere => fixed_result(creds, key, "cohere"@, COHERE_BASE_URL@, url, env, r,
            |p: ModelPlan, k: Seq<char>| p matches ModelPlan::Cohere { model: m, api_key } && m@ == model
                && api_key@ == k),
        ProviderType::Ollama => r matches Ok(ModelPlan::Ollama { model: m, base_url }) && m@ == model
            && opt_is(base_url, url),
        ProviderType::Bedrock => match lookup_value(creds, AWS_ACCESS_KEY_ID_ENV_VAR@) {
            None => r matches Err(e) && e.message@ == missing_named_message(
                key,
                "bedrock"@,
                AWS_ACCESS_KEY_ID_ENV_VAR@,
                "an AWS access key ID"@,
            ),
            Some(id) => match lookup_value(creds, AWS_SECRET_ACCESS_KEY_ENV_VAR@) {
                None => r matches Err(e) && e.message@ == missing_named_message(
                    key,
                    "bedrock"@,
                    AWS_SECRET_ACCESS_KEY_ENV_VAR@,
                    "an AWS secret access key"@,
                ),
                Some(secret) => r matches Ok(ModelPlan::Bedrock { model: m, access_key_id, secret_access_key, session_token, region })
                    && m@ == model && access_key_id@ == id && secret_access_key@ == secret
                    && opt_is(session_token, lookup_value(creds, AWS_SESSION_TOKEN_ENV_VAR@))
                    && opt_is(region, first_named_value(creds, seq![AWS_REGION_ENV_VAR@, AWS_DEFAULT_REGION_ENV_VAR@])),
            },
        },
        ProviderType::Azure => {
            let endpoint = match url {
                Some(u) => Some(azure_endpoint_spec(u)),
                None => match first_env_value(creds, env, EnvKind::AzureResourceName) {
                    Some(res) => Some(azure_resource_endpoint(res)),
                    None => None,
                },
            };
            match endpoint {
                None => r matches Err(e) && e.message@ == "provider `"@ + key
                    + "` mapped to serdes `azure` requires an Azure endpoint or resource name; set one of: "@
                    + names_text(env, EnvKind::AzureResourceName),
                Some(ep) => keyed_result(creds, key, "azure"@, env, "an API key"@, r,
                    |p: ModelPlan, k: Seq<char>| p matches ModelPlan::Azure { model: m, endpoint: e, api_key }
                        && m@ == model && e@ == ep && api_key@ == k),
            }
        },
        ProviderType::ChatGptOAuth => keyed_result(creds, key, "chatgpt-oauth"@, env, "an access token"@, r,
            |p: ModelPlan, k: Seq<char>| p matches ModelPlan::ChatGptOAuth { model: m, access_token, api_base_url, account_id }
                && m@ == model && access_token@ == k && opt_is(api_base_url, url)
                && opt_is(account_id, first_env_value(creds, env, EnvKind::AccountId))),
        ProviderType::ClaudeCodeOAuth => keyed_result(creds, key, "anthropic-code-oauth"@, env, "an access token"@, r,
            |p: ModelPlan, k: Seq<char>| p matches ModelPlan::ClaudeCodeOAuth { model: m, access_token, api_base_url }
                && m@ == model && access_token@ == k && opt_is(api_base_url, url)),
        ProviderType::Antigravity => keyed_result(creds, key, "antigravity"@, env, "an access token"@, r,
            |p: ModelPlan, k: Seq<char>| p matches ModelPlan::Antigravity { model: m, access_token, project_id, endpoint }
                && m@ == model && access_token@ == k && opt_is(endpoint, url)
                && opt_is(project_id, first_env_value(creds, env, EnvKind::ProjectId))),
    }
}

/// The plan for a keyed client with a fixed endpoint: a catalog URL other
/// than the endpoint is refused before the credential is looked for.
pub open spec fn fixed_result(
    creds: Seq<(Seq<char>, Seq<char>)>,
    key: Seq<char>,
    name: Seq<char>,
    expected: Seq<char>,
    url: Option<Seq<char>>,
    env: Seq<Seq<char>>,
    r: Result<ModelPlan, ModelError>,
    accept: spec_fn(ModelPlan, Seq<char>) -> bool,
) -> bool {
    match url {
        Some(u) => if strip_trailing(u, '/') != strip_trailing(expected, '/') {
            r matches Err(e) && e.message@ == fixed_endpoint_message(key, name, u, expected)
        } else {
            keyed_result(creds, key, name, env, "an API key"@, r, accept)
        },
        None => keyed_result(creds, key, name, env, "an API key"@, r, accept),
    }
}


/// Resolves the Azure endpoint: the catalog URL (normalised), else the first
/// set resource-name variable turned into an endpoint.
pub fn resolve_azure_endpoint(
    credentials: &CredentialValues,
    provider_key: &str,
    api_url: Option<&str>,
    env_vars: &Vec<String>,
) -> (r: Result<String, ModelError>)
    ensures
        match api_url {
            Some(u) => r matches Ok(e) && e@ == azure_endpoint_spec(u@),
            None => match first_env_value(credentials.entries(), views(env_vars@), EnvKind::AzureResourceName) {
                Some(res) => r matches Ok(e) && e@ == azure_resource_endpoint(res),
                None => r matches Err(e) && e.message@ == "provider `"@ + provider_key@
                    + "` mapped to serdes `azure` requires an Azure endpoint or resource name; set one of: "@
                    + names_text(views(env_vars@), EnvKind::AzureResourceName),
            },
        },
{
    if let Some(u) = api_url {
        return Ok(normalize_azure_endpoint(u));
    }
    if let Some(resource) = first_matching_env_value(credentials, env_vars, EnvKind::AzureResourceName) {
        return Ok(azure_endpoint_from_resource(resource.as_str()));
    }
    let mut m = concat2("provider `", provider_key);
    push_str(&mut m, "` mapped to serdes `azure` requires an Azure endpoint or resource name; set one of: ");
    let names = matching_env_names(env_vars, EnvKind::AzureResourceName);
    push_str(&mut m, names.as_str());
    Err(ModelError { message: m })
}

fn plan_unknown(
    provider_key: &str,
    model_name: &str,
    api_url: Option<String>,
    env_vars: &Vec<String>,
    credentials: &CredentialValues,
) -> (r: Result<ModelPlan, ModelError>)
    ensures
        plan_spec(
            ProviderType::Unknown,
            provider_key@,
            model_name@,
            match api_url {
                Some(u) => Some(u@),
                None => None,
            },
            views(env_vars@),
            credentials.entries(),
            r,
        ),
{
    let mut m = concat2("provider `", provider_key);
    push_str(&mut m, "` has no SerdesAI mapping because its catalog provider type is unknown");
    Err(ModelError { message: m })
}

fn plan_openai_chat(
    provider_key: &str,
    model_name: &str,
    api_url: Option<String>,
    env_vars: &Vec<String>,
    credentials: &CredentialValues,
) -> (r: Result<ModelPlan, ModelError>)
    ensures
        plan_spec(
            ProviderType::OpenAiCompletions,
            provider_key@,
            model_name@,
            match api_url {
                Some(u) => Some(u@),
                None => None,
            },
            views(env_vars@),
            credentials.entries(),
            r,
        ),
{
    let model = owned(model_name);
    let url = opt_str(&api_url);
    let api_key = require_env_value(credentials, provider_key, OPENAI_COMPATIBLE_PROVIDER, env_vars, "a credential", EnvKind::Credential)?;
    Ok(ModelPlan::OpenAiChat { model, api_key, base_url: opt_clone(&api_url) })
}

fn plan_openai_responses(
    provider_key: &str,
    model_name: &str,
    api_url: Option<String>,
    env_vars: &Vec<String>,
    credentials: &CredentialValues,
) -> (r: Result<ModelPlan, ModelError>)
    ensures
        plan_spec(
            ProviderType::OpenAiResponses,
            provider_key@,
            model_name@,
            match api_url {
                Some(u) => Some(u@),
                None => None,
            },
            views(env_vars@),
            credentials.entries(),
            r,
        ),
{
    let model = owned(model_name);
    let url = opt_str(&api_url);
    let api_key = require_env_value(credentials, provider_key, OPENAI_COMPATIBLE_PROVIDER, env_vars, "a credential", EnvKind::Credential)?;
    Ok(ModelPlan::OpenAiResponses { model, api_key, base_url: opt_clone(&api_url) })
}

fn plan_anthropic(
    provider_key: &str,
    model_name: &str,
    api_url: Option<String>,
    env_vars: &Vec<String>,
    credentials: &CredentialValues,
) -> (r: Result<ModelPlan, ModelError>)
    ensures
        plan_spec(
            ProviderType::Anthropic,
            provider_key@,
            model_name@,
            match api_url {
                Some(u) => Some(u@),
                None => None,
            },
            views(env_vars@),
            credentials.entries(),
            r,
        ),
{
    let model = owned(model_name);
    let url = opt_str(&api_url);
    let api_key = require_env_value(credentials, provider_key, "anthropic", env_vars, "an API key", EnvKind::Credential)?;
    Ok(ModelPlan::Anthropic { model, api_key, base_url: opt_clone(&api_url) })
}

fn plan_google(
    provider_key: &str,
    model_name: &str,
    api_url: Option<String>,
    env_vars: &Vec<String>,
    credentials: &CredentialValues,
) -> (r: Result<ModelPlan, ModelError>)
    ensures
        plan_spec(
            ProviderType::Google,
            provider_key@,
            model_name@,
            match api_url {
                Some(u) => Some(u@),
                None => None,
            },
            views(env_vars@),
            credentials.entries(),
            r,
        ),
{
    let model = owned(model_name);
    let url = opt_str(&api_url);
    let api_key = require_env_value(credentials, provider_key, "google", env_vars, "an API key", EnvKind::Credential)?;
    Ok(ModelPlan::Google { model, api_key, base_url: opt_clone(&api_url) })
}

fn plan_mistral(
    provider_key: &str,
    model_name: &str,
    api_url: Option<String>,
    env_vars: &Vec<String>,
    credentials: &CredentialValues,
) -> (r: Result<ModelPlan, ModelError>)
    ensures
        plan_spec(
            ProviderType::Mistral,
            provider_key@,
            model_name@,
            match api_url {
                Some(u) => Some(u@),
                None => None,
            },
            views(env_vars@),
            credentials.entries(),
            r,
        ),
{
    let model = owned(model_name);
    let url = opt_str(&api_url);
    let api_key = require_env_value(credentials, provider_key, "mistral", env_vars, "an API key", EnvKind::Credential)?;
    Ok(ModelPlan::Mistral { model, api_key, base_url: opt_clone(&api_url) })
}

fn plan_huggingface(
    provider_key: &str,
    model_name: &str,
    api_url: Option<String>,
    env_vars: &Vec<String>,
    credentials: &CredentialValues,
) -> (r: Result<ModelPlan, ModelError>)
    ensures
        plan_spec(
            ProviderType::HuggingFace,
            provider_key@,
            model_name@,
            match api_url {
                Some(u) => Some(u@),
                None => None,
            },
            views(env_vars@),
            credentials.entries(),
            r,
        ),
{
    let model = owned(model_name);
    let token = require_env_value(credentials, provider_key, "huggingface", env_vars, "a token", EnvKind::Credential)?;
    Ok(ModelPlan::HuggingFace { model, token, endpoint: opt_clone(&api_url) })
}

fn plan_groq(
    provider_key: &str,
    model_name: &str,
    api_url: Option<String>,
    env_vars: &Vec<String>,
    credentials: &CredentialValues,
) -> (r: Result<ModelPlan, ModelError>)
    ensures
        plan_spec(
            ProviderType::Groq,
            provider_key@,
            model_name@,
            match api_url {
                Some(u) => Some(u@),
                None => None,
            },
            views(env_vars@),
            credentials.entries(),
            r,
        ),
{
    let model = owned(model_name);
    let url = opt_str(&api_url);
    validate_fixed_endpoint(provider_key, "groq", url, GROQ_BASE_URL)?;
    let api_key = require_env_value(credentials, provider_key, "groq", env_vars, "an API key", EnvKind::Credential)?;
    Ok(ModelPlan::Groq { model, api_key })
}

fn plan_openrouter(
    provider_key: &str,
    model_name: &str,
    api_url: Option<String>,
    env_vars: &Vec<String>,
    credentials: &CredentialValues,
) -> (r: Result<ModelPlan, ModelError>)
    ensures
        plan_spec(
            ProviderType::OpenRouter,
            provider_key@,
            model_name@,
            match api_url {
                Some(u) => Some(u@),
                None => None,
            },
            views(env_vars@),
            credentials.entries(),
            r,
        ),
{
    let model = owned(model_name);
    let url = opt_str(&api_url);
    validate_fixed_endpoint(provider_key, "openrouter", url, OPENROUTER_BASE_URL)?;
    let api_key = require_env_value(credentials, provider_key, "openrouter", env_vars, "an API key", EnvKind::Credential)?;
    Ok(ModelPlan::OpenRouter { model, api_key })
}

fn plan_cohere(
    provider_key: &str,
    model_name: &str,
    api_url: Option<String>,
    env_vars: &Vec<String>,
    credentials: &CredentialValues,
) -> (r: Result<ModelPlan, ModelError>)
    ensures
        plan_spec(
            ProviderType::Cohere,
            provider_key@,
            model_name@,
            match api_url {
                Some(u) => Some(u@),
                None => None,
            },
            views(env_vars@),
            credentials.entries(),
            r,
        ),
{
    let model = owned(model_name);
    let url = opt_str(&api_url);
    validate_fixed_endpoint(provider_key, "cohere", url, COHERE_BASE_URL)?;
    let api_key = require_env_value(credentials, provider_key, "cohere", env_vars, "an API key", EnvKind::Credential)?;
    Ok(ModelPlan::Cohere { model, api_key })
}

fn plan_ollama(
    provider_key: &str,
    model_name: &str,
    api_url: Option<String>,
    env_vars: &Vec<String>,
    credentials: &CredentialValues,
) -> (r: Result<ModelPlan, ModelError>)
    ensures
        plan_spec(
            ProviderType::Ollama,
            provider_key@,
            model_name@,
            match api_url {
                Some(u) => Some(u@),
                None => None,
            },
            views(env_vars@),
            credentials.entries(),
            r,
        ),
{
    let model = owned(model_name);
    let url = opt_str(&api_url);
    Ok(ModelPlan::Ollama { model, base_url: opt_clone(&api_url) })
}

fn plan_bedrock(
    provider_key: &str,
    model_name: &str,
    api_url: Option<String>,
    env_vars: &Vec<String>,
    credentials: &CredentialValues,
) -> (r: Result<ModelPlan, ModelError>)
    ensures
    plan_spec(
        ProviderType::Bedrock,
        provider_key@,
        model_name@,
        match api_url {
            Some(u) => Some(u@),
            None => None,
        },
        views(env_vars@),
        credentials.entries(),
        r,
    ),
{
    let model = owned(model_name);
    let access_key_id = require_named_value(credentials, provider_key, "bedrock", AWS_ACCESS_KEY_ID_ENV_VAR, "an AWS access key ID")?;
    let secret_access_key = require_named_value(credentials, provider_key, "bedrock", AWS_SECRET_ACCESS_KEY_ENV_VAR, "an AWS secret access key")?;
    let session_token = credentials.resolve(AWS_SESSION_TOKEN_ENV_VAR);
    let names: Vec<&str> = vec![AWS_REGION_ENV_VAR, AWS_DEFAULT_REGION_ENV_VAR];
    proof {
        assert(names@.map_values(|s: &str| s@) =~= seq![AWS_REGION_ENV_VAR@, AWS_DEFAULT_REGION_ENV_VAR@]);
    }
    let region = first_resolved_name(credentials, &names);
    Ok(ModelPlan::Bedrock { model, access_key_id, secret_access_key, session_token, region })
}

fn plan_azure(
    provider_key: &str,
    model_name: &str,
    api_url: Option<String>,
    env_vars: &Vec<String>,
    credentials: &CredentialValues,
) -> (r: Result<ModelPlan, ModelError>)
    ensures
        plan_spec(
            ProviderType::Azure,
            provider_key@,
            model_name@,
            match api_url {
                Some(u) => Some(u@),
                None => None,
            },
            views(env_vars@),
            credentials.entries(),
            r,
        ),
{
    let model = owned(model_name);
    let url = opt_str(&api_url);
    let endpoint = resolve_azure_endpoint(credentials, provider_key, url, env_vars)?;
    let api_key = require_env_value(credentials, provider_key, "azure", env_vars, "an API key", EnvKind::Credential)?;
    Ok(ModelPlan::Azure { model, endpoint, api_key })
}

fn plan_chatgpt_oauth(
    provider_key: &str,
    model_name: &str,
    api_url: Option<String>,
    env_vars: &Vec<String>,
    credentials: &CredentialValues,
) -> (r: Result<ModelPlan, ModelError>)
    ensures
        plan_spec(
            ProviderType::ChatGptOAuth,
            provider_key@,
            model_name@,
            match api_url {
                Some(u) => Some(u@),
                None => None,
            },
            views(env_vars@),
            credentials.entries(),
            r,
        ),
{
    let model = owned(model_name);
    let url = opt_str(&api_url);
    let access_token = require_env_value(credentials, provider_key, "chatgpt-oauth", env_vars, "an access token", EnvKind::Credential)?;
    let account_id = first_matching_env_value(credentials, env_vars, EnvKind::AccountId);
    Ok(ModelPlan::ChatGptOAuth { model, access_token, api_base_url: opt_clone(&api_url), account_id })
}

fn plan_claude_code_oauth(
    provider_key: &str,
    model_name: &str,
    api_url: Option<String>,
    env_vars: &Vec<String>,
    credentials: &CredentialValues,
) -> (r: Result<ModelPlan, ModelError>)
    ensures
        plan_spec(
            ProviderType::ClaudeCodeOAuth,
            provider_key@,
            model_name@,
            match api_url {
                Some(u) => Some(u@),
                None => None,
            },
            views(env_vars@),
            credentials.entries(),
            r,
        ),
{
    let model = owned(model_name);
    let url = opt_str(&api_url);
    let access_token = require_env_value(credentials, provider_key, "anthropic-code-oauth", env_vars, "an access token", EnvKind::Credential)?;
    Ok(ModelPlan::ClaudeCodeOAuth { model, access_token, api_base_url: opt_clone(&api_url) })
}

fn plan_antigravity(
    provider_key: &str,
    model_name: &str,
    api_url: Option<String>,
    env_vars: &Vec<String>,
    credentials: &CredentialValues,
) -> (r: Result<ModelPlan, ModelError>)
    ensures
        plan_spec(
            ProviderType::Antigravity,
            provider_key@,
            model_name@,
            match api_url {
                Some(u) => Some(u@),
                None => None,
            },
            views(env_vars@),
            credentials.entries(),
            r,
        ),
{
    let model = owned(model_name);
    let access_token = require_env_value(credentials, provider_key, "antigravity", env_vars, "an access token", EnvKind::Credential)?;
    let project_id = first_matching_env_value(credentials, env_vars, EnvKind::ProjectId);
    Ok(ModelPlan::Antigravity { model, access_token, project_id, endpoint: opt_clone(&api_url) })
}

/// Decides how to construct the client for a provider of type `provider_type`.
pub fn plan_for_provider(
    provider_type: ProviderType,
    provider_key: &str,
    model_name: &str,
    api_url: Option<String>,
    env_vars: &Vec<String>,
    credentials: &CredentialValues,
) -> (r: Result<ModelPlan, ModelError>)
    ensures
        plan_spec(
            provider_type,
            provider_key@,
            model_name@,
            match api_url {
                Some(u) => Some(u@),
                None => None,
            },
            views(env_vars@),
            credentials.entries(),
            r,
        ),
{
    match provider_type {
        ProviderType::Unknown => plan_unknown(provider_key, model_name, api_url, env_vars, credentials),
        ProviderType::OpenAiCompletions => plan_openai_chat(provider_key, model_name, api_url, env_vars, credentials),
        ProviderType::OpenAiResponses => plan_openai_responses(provider_key, model_name, api_url, env_vars, credentials),
        ProviderType::Anthropic => plan_anthropic(provider_key, model_name, api_url, env_vars, credentials),
        ProviderType::Google => plan_google(provider_key, model_name, api_url, env_vars, credentials),
        ProviderType::Mistral => plan_mistral(provider_key, model_name, api_url, env_vars, credentials),
        ProviderType::HuggingFace => plan_huggingface(provider_key, model_name, api_url, env_vars, credentials),
        ProviderType::Groq => plan_groq(provider_key, model_name, api_url, env_vars, credentials),
        ProviderType::OpenRouter => plan_openrouter(provider_key, model_name, api_url, env_vars, credentials),
        ProviderType::Cohere => plan_cohere(provider_key, model_name, api_url, env_vars, credentials),
        ProviderType::Ollama => plan_ollama(provider_key, model_name, api_url, env_vars, credentials),
        ProviderType::Bedrock => plan_bedrock(provider_key, model_name, api_url, env_vars, credentials),
        ProviderType::Azure => plan_azure(provider_key, model_name, api_url, env_vars, credentials),
        ProviderType::ChatGptOAuth => plan_chatgpt_oauth(provider_key, model_name, api_url, env_vars, credentials),
        ProviderType::ClaudeCodeOAuth => plan_claude_code_oauth(provider_key, model_name, api_url, env_vars, credentials),
        ProviderType::Antigravity => plan_antigravity(provider_key, model_name, api_url, env_vars, credentials),
    }
}

/// Decides how to construct the client for a catalog model: the provider is
/// looked up by key, its URL normalised, and its type picks the client.
pub fn plan_serdes_model(
    catalog: &ModelCatalog,
    provider_key: &str,
    model_name: &str,
    credentials: &CredentialValues,
) -> (r: Result<ModelPlan, ModelError>)
    ensures
        match find_provider(catalog.providers(), provider_key@) {
            None => r matches Err(e) && e.message@ == "effective provider `"@ + provider_key@
                + "` disappeared from the model catalog after validation"@,
            Some(i) => {
                let p = catalog.providers()[i].provider;
                plan_spec(
                    p.api_type,
                    provider_key@,
                    model_name@,
                    normalized_url_spec(p.api_url@),
                    views(p.env_vars@),
                    credentials.entries(),
                    r,
                )
            },
        },
{
    let provider = match catalog.lookup_provider(provider_key) {
        Some(p) => p,
        None => {
            let mut m = concat2("effective provider `", provider_key);
            push_str(&mut m, "` disappeared from the model catalog after validation");
            return Err(ModelError { message: m });
        },
    };
    let api_url = normalized_api_url(provider.api_url.as_str());
    proof {
        assert(match api_url {
            Some(u) => Some(u@),
            None => None::<Seq<char>>,
        } == normalized_url_spec(provider.api_url@));
    }
    plan_for_provider(provider.api_type, provider_key, model_name, api_url, provider.env_vars(), credentials)
}

proof fn lemma_lookup_value_first(entries: Seq<(Seq<char>, Seq<char>)>, name: Seq<char>)
    ensures
        forall|i: int|
            0 <= i < entries.len() && entries[i].0 == name && (forall|j: int| 0 <= j < i ==> entries[j].0 != name)
                ==> lookup_value(entries, name) == Some(#[trigger] entries[i].1),
        (forall|i: int| 0 <= i < entries.len() ==> #[trigger] entries[i].0 != name) ==> lookup_value(entries, name)
            is None,
    decreases entries.len(),
{
    if entries.len() > 0 {
        let rest = entries.drop_first();
        lemma_lookup_value_first(rest, name);
        assert forall|i: int|
            0 <= i < entries.len() && entries[i].0 == name && (forall|j: int| 0 <= j < i ==> entries[j].0 != name)
                implies lookup_value(entries, name) == Some(#[trigger] entries[i].1) by {
            if i > 0 {
                assert(entries[0].0 != name);
                assert(rest[i - 1] == entries[i]);
                assert forall|j: int| 0 <= j < i - 1 implies rest[j].0 != name by {
                    assert(rest[j] == entries[j + 1]);
                }
            }
        }
        if forall|i: int| 0 <= i < entries.len() ==> #[trigger] entries[i].0 != name {
            assert(entries[0].0 != name);
            assert forall|i: int| 0 <= i < rest.len() implies #[trigger] rest[i].0 != name by {
                assert(rest[i] == entries[i + 1]);
            }
        }
    }
}

/// A Bedrock plan carries the session token recorded for `AWS_SESSION_TOKEN`:
/// the value of its first entry in the credentials when there is one, and no
/// token when there is none.
pub proof fn lemma_bedrock_session_token(
    key: Seq<char>,
    model: Seq<char>,
    url: Option<Seq<char>>,
    env: Seq<Seq<char>>,
    creds: Seq<(Seq<char>, Seq<char>)>,
    r: Result<ModelPlan, ModelError>,
)
    requires
        plan_spec(ProviderType::Bedrock, key, model, url, env, creds, r),
        r is Ok,
    ensures
        r matches Ok(ModelPlan::Bedrock { .. }),
        forall|i: int|
            #![trigger creds[i]]
            0 <= i < creds.len() && creds[i].0 == AWS_SESSION_TOKEN_ENV_VAR@ && (forall|j: int|
                0 <= j < i ==> creds[j].0 != AWS_SESSION_TOKEN_ENV_VAR@) ==> (r matches Ok(
                ModelPlan::Bedrock { session_token: Some(t), .. },
            ) && t@ == creds[i].1),
        (forall|i: int| 0 <= i < creds.len() ==> #[trigger] creds[i].0 != AWS_SESSION_TOKEN_ENV_VAR@) ==> (r matches Ok(
            ModelPlan::Bedrock { session_token: None, .. },
        )),
{
    lemma_lookup_value_first(creds, AWS_SESSION_TOKEN_ENV_VAR@);
    let tok = lookup_value(creds, AWS_SESSION_TOKEN_ENV_VAR@);
    match lookup_value(creds, AWS_ACCESS_KEY_ID_ENV_VAR@) {
        None => {
            assert(r is Err);
        },
        Some(id) => match lookup_value(creds, AWS_SECRET_ACCESS_KEY_ENV_VAR@) {
            None => {
                assert(r is Err);
            },
            Some(secret) => {
                assert(r matches Ok(ModelPlan::Bedrock { session_token, .. }) && opt_is(session_token, tok));
                assert forall|i: int|
                    #![trigger creds[i]]
                    0 <= i < creds.len() && creds[i].0 == AWS_SESSION_TOKEN_ENV_VAR@ && (forall|j: int|
                        0 <= j < i ==> creds[j].0 != AWS_SESSION_TOKEN_ENV_VAR@) implies (r matches Ok(
                        ModelPlan::Bedrock { session_token: Some(t), .. },
                    ) && t@ == creds[i].1) by {
                    assert(tok == Some(creds[i].1));
                }
            },
        },
    }
}

} // verus!
