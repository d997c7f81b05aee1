//! Web fetching: timeout settings, the decisions taken around the request
//! (timeout, status, size limits) and the processing of the fetched content.
//!
//! Sending the request and reading the body are the caller's part; each step
//! of the exchange is decided here.
use crate::core_tools::error::ToolError;
use crate::text::{contains_seq, decimal, owned, push_decimal, push_str, to_chars, views};
use crate::utf8::{string_from_utf8_or_lossy, utf8_text};
use vstd::prelude::*;

verus! {

/// Smallest accepted timeout, in milliseconds.
pub const MIN_TIMEOUT_MS: u32 = 1;

/// Smallest accepted response size limit, in bytes.
pub const MIN_RESPONSE_SIZE: usize = 1;

/// Timeout used when a request gives none, in milliseconds.
pub const DEFAULT_TIMEOUT_MS: u32 = 30000;

/// Standard cap on a request's timeout, in milliseconds.
pub const MAX_TIMEOUT_MS: u32 = 120000;

/// Standard cap on a response's size, in bytes (5 MiB).
pub const MAX_RESPONSE_SIZE: usize = 5242880;

/// A webfetch request.
#[derive(Debug, Clone, PartialEq, Eq)]
pub struct WebFetchRequest {
    /// The URL to fetch.
    pub url: String,
    /// Timeout in milliseconds; the settings' default when omitted.
    pub timeout_ms: Option<u32>,
}

/// Runtime settings applied to webfetch requests: a default timeout used
/// when the request gives none, a cap on any requested timeout, and a cap on
/// the downloaded bytes.
#[derive(Debug, Clone, Copy, PartialEq, Eq)]
pub struct WebFetchSettings {
    default_timeout_ms: u32,
    max_timeout_ms: u32,
    max_response_size: usize,
}

/// The error for a pair of timeouts, if they are refused: each must be at
/// least [`MIN_TIMEOUT_MS`] and the default must not exceed the cap.
pub open spec fn timeouts_error(default_ms: u32, max_ms: u32) -> Option<(Seq<char>, Seq<char>)> {
    if default_ms < MIN_TIMEOUT_MS {
        Some(("default_timeout_ms"@, "default_timeout_ms must be >= 1"@))
    } else if max_ms < MIN_TIMEOUT_MS {
        Some(("max_timeout_ms"@, "max_timeout_ms must be >= 1"@))
    } else if default_ms > max_ms {
        Some(
            (
                "default_timeout_ms"@,
                "default_timeout_ms ("@ + decimal(default_ms as nat) + ") must be <= max_timeout_ms ("@
                    + decimal(max_ms as nat) + ")"@,
            ),
        )
    } else {
        None
    }
}

/// `e` is the validation error naming `field` with `message`.
pub open spec fn is_validation(e: ToolError, field: Seq<char>, message: Seq<char>) -> bool {
    e matches ToolError::Validation { field: Some(f), message: m } && f@ == field && m@ == message
}

/// Checks a pair of timeouts.
fn ensure_timeouts(default_timeout_ms: u32, max_timeout_ms: u32) -> (r: Result<(), ToolError>)
    ensures
        match timeouts_error(default_timeout_ms, max_timeout_ms) {
            Some((f, m)) => r matches Err(e) && is_validation(e, f, m),
            None => r is Ok,
        },
{
    if default_timeout_ms < MIN_TIMEOUT_MS {
        return Err(ToolError::validation_for("default_timeout_ms", owned("default_timeout_ms must be >= 1")));
    }
    if max_timeout_ms < MIN_TIMEOUT_MS {
        return Err(ToolError::validation_for("max_timeout_ms", owned("max_timeout_ms must be >= 1")));
    }
    if default_timeout_ms > max_timeout_ms {
        let mut m = owned("default_timeout_ms (");
        push_decimal(&mut m, default_timeout_ms as u64);
        push_str(&mut m, ") must be <= max_timeout_ms (");
        push_decimal(&mut m, max_timeout_ms as u64);
        push_str(&mut m, ")");
        return Err(ToolError::validation_for("default_timeout_ms", m));
    }
    Ok(())
}

impl WebFetchSettings {
    /// The settings hold: both timeouts at least the minimum, the default not
    /// above the cap, and a positive size limit.
    pub open spec fn valid(self) -> bool {
        &&& timeouts_error(self.spec_default_timeout_ms(), self.spec_max_timeout_ms()) is None
        &&& self.spec_max_response_size() >= MIN_RESPONSE_SIZE
    }

    /// The timeout used when the request gives none.
    pub closed spec fn spec_default_timeout_ms(self) -> u32 {
        self.default_timeout_ms
    }

    /// The cap on a request's timeout.
    pub closed spec fn spec_max_timeout_ms(self) -> u32 {
        self.max_timeout_ms
    }

    /// The cap on downloaded bytes.
    pub closed spec fn spec_max_response_size(self) -> usize {
        self.max_response_size
    }

    /// Settings with the standard timeouts and size limit.
    pub fn new() -> (s: Self)
        ensures
            s.spec_default_timeout_ms() == DEFAULT_TIMEOUT_MS,
            s.spec_max_timeout_ms() == MAX_TIMEOUT_MS,
            s.spec_max_response_size() == MAX_RESPONSE_SIZE,
            s.valid(),
    {
        WebFetchSettings {
            default_timeout_ms: DEFAULT_TIMEOUT_MS,
            max_timeout_ms: MAX_TIMEOUT_MS,
            max_response_size: MAX_RESPONSE_SIZE,
        }
    }

    /// Sets the default and maximum timeouts in one checked step.
    pub fn with_timeouts(self, default_timeout_ms: u32, max_timeout_ms: u32) -> (r: Result<Self, ToolError>)
        ensures
            match timeouts_error(default_timeout_ms, max_timeout_ms) {
                Some((f, m)) => r matches Err(e) && is_validation(e, f, m),
                None => r matches Ok(s) && s.spec_default_timeout_ms() == default_timeout_ms
                    && s.spec_max_timeout_ms() == max_timeout_ms && s.spec_max_response_size()
                    == self.spec_max_response_size(),
            },
    {
        ensure_timeouts(default_timeout_ms, max_timeout_ms)?;
        Ok(WebFetchSettings { default_timeout_ms, max_timeout_ms, max_response_size: self.max_response_size })
    }

    /// Sets the timeout used when the request gives none; it must not exceed
    /// the current cap.
    pub fn with_default_timeout_ms(self, default_timeout_ms: u32) -> (r: Result<Self, ToolError>)
        ensures
            match timeouts_error(default_timeout_ms, self.spec_max_timeout_ms()) {
                Some((f, m)) => r matches Err(e) && is_validation(e, f, m),
                None => r matches Ok(s) && s.spec_default_timeout_ms() == default_timeout_ms
                    && s.spec_max_timeout_ms() == self.spec_max_timeout_ms()
                    && s.spec_max_response_size() == self.spec_max_response_size(),
            },
    {
        self.with_timeouts(default_timeout_ms, self.max_timeout_ms)
    }

    /// Sets the cap on request duration; it must not be below the current
    /// default.
    pub fn with_max_timeout_ms(self, max_timeout_ms: u32) -> (r: Result<Self, ToolError>)
        ensures
            match timeouts_error(self.spec_default_timeout_ms(), max_timeout_ms) {
                Some((f, m)) => r matches Err(e) && is_validation(e, f, m),
                None => r matches Ok(s) && s.spec_default_timeout_ms() == self.spec_default_timeout_ms()
                    && s.spec_max_timeout_ms() == max_timeout_ms && s.spec_max_response_size()
                    == self.spec_max_response_size(),
            },
    {
        self.with_timeouts(self.default_timeout_ms, max_timeout_ms)
    }

    /// Sets the maximum response size in bytes; sizes below
    /// [`MIN_RESPONSE_SIZE`] are refused.
    pub fn with_max_response_size(self, max_response_size: usize) -> (r: Result<Self, ToolError>)
        ensures
            max_response_size < MIN_RESPONSE_SIZE ==> (r matches Err(e) && is_validation(
                e,
                "max_response_size"@,
                "max_response_size must be >= 1"@,
            )),
            max_response_size >= MIN_RESPONSE_SIZE ==> (r matches Ok(s) && s.spec_max_response_size()
                == max_response_size && s.spec_default_timeout_ms() == self.spec_default_timeout_ms()
                && s.spec_max_timeout_ms() == self.spec_max_timeout_ms()),
    {
        if max_response_size < MIN_RESPONSE_SIZE {
            return Err(ToolError::validation_for("max_response_size", owned("max_response_size must be >= 1")));
        }
        Ok(WebFetchSettings { max_response_size, ..self })
    }

    /// The timeout used when the request gives none.
    pub fn default_timeout_ms(self) -> (t: u32)
        ensures
            t == self.spec_default_timeout_ms(),
    {
        self.default_timeout_ms
    }

    /// The cap on request duration.
    pub fn max_timeout_ms(self) -> (t: u32)
        ensures
            t == self.spec_max_timeout_ms(),
    {
        self.max_timeout_ms
    }

    /// The maximum response size in bytes.
    pub fn max_response_size(self) -> (n: usize)
        ensures
            n == self.spec_max_response_size(),
    {
        self.max_response_size
    }
}

impl Default for WebFetchSettings {
    fn default() -> (s: Self)
        ensures
            s.spec_default_timeout_ms() == DEFAULT_TIMEOUT_MS,
            s.spec_max_timeout_ms() == MAX_TIMEOUT_MS,
            s.spec_max_response_size() == MAX_RESPONSE_SIZE,
    {
        WebFetchSettings::new()
    }
}

/// The timeout a request runs with, or the error refusing it: the request's
/// own timeout or the default, which must be positive and within the cap.
pub open spec fn request_timeout(timeout_ms: Option<u32>, s: WebFetchSettings) -> Result<u32, (Seq<char>, Seq<char>)> {
    let t = match timeout_ms {
        Some(t) => t,
        None => s.spec_default_timeout_ms(),
    };
    if t == 0 {
        Err(("timeout_ms"@, "timeout_ms must be at least 1"@))
    } else if t > s.spec_max_timeout_ms() {
        Err(
            (
                "timeout_ms"@,
                "timeout_ms exceeds maximum allowed value of "@ + decimal(s.spec_max_timeout_ms() as nat),
            ),
        )
    } else {
        Ok(t)
    }
}

/// Decides the timeout of a request before anything is sent.
pub fn resolve_timeout(request: &WebFetchRequest, settings: WebFetchSettings) -> (r: Result<u32, ToolError>)
    ensures
        match request_timeout(request.timeout_ms, settings) {
            Ok(t) => r == Ok::<u32, ToolError>(t),
            Err((f, m)) => r matches Err(e) && is_validation(e, f, m),
        },
{
    let timeout_ms = match request.timeout_ms {
        Some(t) => t,
        None => settings.default_timeout_ms(),
    };
    if timeout_ms == 0 {
        return Err(ToolError::validation_for("timeout_ms", owned("timeout_ms must be at least 1")));
    }
    if timeout_ms > settings.max_timeout_ms() {
        let mut m = owned("timeout_ms exceeds maximum allowed value of ");
        push_decimal(&mut m, settings.max_timeout_ms() as u64);
        return Err(ToolError::validation_for("timeout_ms", m));
    }
    Ok(timeout_ms)
}

/// The message refusing a response of `len` bytes over the cap `max`.
pub open spec fn too_large_message(len: nat, max: nat, url: Seq<char>) -> Seq<char> {
    "Response too large: "@ + decimal(len) + " bytes (max "@ + decimal(max) + ") for "@ + url
}

/// Refuses a response size above the cap.
pub fn check_size(len: usize, url: &str, max_size: usize) -> (r: Result<(), ToolError>)
    ensures
        len <= max_size ==> r is Ok,
        len > max_size ==> (r matches Err(ToolError::Http(m)) && m@ == too_large_message(
            len as nat,
            max_size as nat,
            url@,
        )),
{
    if len > max_size {
        let mut m = owned("Response too large: ");
        push_decimal(&mut m, len as u64);
        push_str(&mut m, " bytes (max ");
        push_decimal(&mut m, max_size as u64);
        push_str(&mut m, ") for ");
        push_str(&mut m, url);
        return Err(ToolError::Http(m));
    }
    Ok(())
}

/// Refuses a response whose status is not a success (2xx); `status` is the
/// rendered status line, such as `404 Not Found`.
pub fn check_status(code: u16, status: &str, url: &str) -> (r: Result<(), ToolError>)
    ensures
        200 <= code < 300 ==> r is Ok,
        !(200 <= code < 300) ==> (r matches Err(ToolError::Http(m)) && m@ == "HTTP "@ + status@
            + " for "@ + url@),
{
    if 200 <= code && code < 300 {
        return Ok(());
    }
    let mut m = owned("HTTP ");
    push_str(&mut m, status);
    push_str(&mut m, " for ");
    push_str(&mut m, url);
    Err(ToolError::Http(m))
}

/// The content type of a response: its header when readable, else
/// `text/plain`.
pub fn content_type_or_default(header: Option<String>) -> (t: String)
    ensures
        match header {
            Some(h) => t@ == h@,
            None => t@ == "text/plain"@,
        },
{
    match header {
        Some(h) => h,
        None => owned("text/plain"),
    }
}

/// Checks the announced `Content-Length` before the body is read: it must fit
/// the platform and the size cap. Returns the length to reserve.
pub fn check_content_length(content_length: Option<u64>, url: &str, max_size: usize) -> (r: Result<Option<usize>, ToolError>)
    ensures
        match content_length {
            None => r == Ok::<Option<usize>, ToolError>(None),
            Some(len) => if len > usize::MAX {
                r matches Err(ToolError::Http(m)) && m@ == "Content-Length "@ + decimal(len as nat)
                    + " exceeds platform limits for "@ + url@
            } else if len > max_size {
                r matches Err(ToolError::Http(m)) && m@ == too_large_message(len as nat, max_size as nat, url@)
            } else {
                r == Ok::<Option<usize>, ToolError>(Some(len as usize))
            },
        },
{
    match content_length {
        None => Ok(None),
        Some(len) => {
            if len > usize::MAX as u64 {
                let mut m = owned("Content-Length ");
                push_decimal(&mut m, len);
                push_str(&mut m, " exceeds platform limits for ");
                push_str(&mut m, url);
                return Err(ToolError::Http(m));
            }
            let n = len as usize;
            check_size(n, url, max_size)?;
            Ok(Some(n))
        },
    }
}

/// The body read so far.
#[derive(Debug)]
pub struct FetchBody {
    bytes: Vec<u8>,
}

impl FetchBody {
    /// The bytes read so far.
    pub closed spec fn bytes(&self) -> Seq<u8> {
        self.bytes@
    }

    /// An empty body.
    pub fn new() -> (b: Self)
        ensures
            b.bytes() == Seq::<u8>::empty(),
    {
        FetchBody { bytes: Vec::new() }
    }

    /// Takes the next chunk of the body: the running total must not overflow
    /// nor pass the size cap, else the fetch fails and the body is unchanged.
    pub fn accept_chunk(&mut self, chunk: &[u8], url: &str, max_size: usize) -> (r: Result<(), ToolError>)
        ensures
            old(self).bytes().len() + chunk@.len() > usize::MAX ==> (r matches Err(ToolError::Http(m)) && m@
                == "Response size overflow for "@ + url@ && final(self).bytes() == old(self).bytes()),
            old(self).bytes().len() + chunk@.len() <= usize::MAX && old(self).bytes().len() + chunk@.len()
                > max_size ==> (r matches Err(ToolError::Http(m)) && m@ == too_large_message(
                (old(self).bytes().len() + chunk@.len()) as nat,
                max_size as nat,
                url@,
            ) && final(self).bytes() == old(self).bytes()),
            old(self).bytes().len() + chunk@.len() <= max_size ==> (r is Ok && final(self).bytes()
                == old(self).bytes() + chunk@),
    {
        let total = match self.bytes.len().checked_add(chunk.len()) {
            Some(t) => t,
            None => {
                let mut m = owned("Response size overflow for ");
                push_str(&mut m, url);
                return Err(ToolError::Http(m));
            },
        };
        check_size(total, url, max_size)?;
        let mut i: usize = 0;
        let ghost start = self.bytes@;
        while i < chunk.len()
            invariant
                i <= chunk@.len(),
                self.bytes@ == start + chunk@.take(i as int),
            decreases chunk@.len() - i,
        {
            self.bytes.push(chunk[i]);
            proof {
                assert(chunk@.take(i + 1) == chunk@.take(i as int).push(chunk@[i as int]));
            }
            i = i + 1;
        }
        assert(chunk@.take(chunk@.len() as int) == chunk@);
        Ok(())
    }

    /// The number of bytes read so far.
    pub fn len(&self) -> (n: usize)
        ensures
            n == self.bytes().len(),
    {
        self.bytes.len()
    }

    /// Gives up the bytes read.
    pub fn into_bytes(self) -> (v: Vec<u8>)
        ensures
            v@ == self.bytes(),
    {
        self.bytes
    }
}

/// The kind of a failure to send the request.
#[derive(Debug, Clone, Copy, PartialEq, Eq, Structural)]
pub enum RequestFailure {
    /// The request timed out.
    Timeout,
    /// The connection could not be made.
    Connect,
    /// Too many redirects were followed.
    Redirect,
    /// Any other failure.
    Other,
}

/// Turns a failure to send the request into a tool error; `rendered` is the
/// failure's own message.
pub fn categorize_request_error(kind: RequestFailure, rendered: &str, url: &str) -> (e: ToolError)
    ensures
        match kind {
            RequestFailure::Timeout => e matches ToolError::Timeout(m) && m@ == "Request timed out for "@ + url@,
            RequestFailure::Connect => e matches ToolError::Http(m) && m@ == "Connection failed for "@ + url@
                + ": "@ + rendered@,
            RequestFailure::Redirect => e matches ToolError::Http(m) && m@ == "Too many redirects for "@ + url@,
            RequestFailure::Other => e matches ToolError::Http(m) && m@ == rendered@,
        },
{
    match kind {
        RequestFailure::Timeout => {
            let mut m = owned("Request timed out for ");
            push_str(&mut m, url);
            ToolError::Timeout(m)
        },
        RequestFailure::Connect => {
            let mut m = owned("Connection failed for ");
            push_str(&mut m, url);
            push_str(&mut m, ": ");
            push_str(&mut m, rendered);
            ToolError::Http(m)
        },
        RequestFailure::Redirect => {
            let mut m = owned("Too many redirects for ");
            push_str(&mut m, url);
            ToolError::Http(m)
        },
        RequestFailure::Other => ToolError::Http(owned(rendered)),
    }
}

/// How much non-content HTML preprocessing removes before conversion.
#[derive(Debug, Clone, Copy, PartialEq, Eq, Structural)]
pub enum MarkdownPreset {
    /// Only essential noise (scripts, styles).
    Minimal,
    /// Navigation, forms and other auxiliary content.
    Standard,
    /// Extensive non-content elements and structure.
    Aggressive,
}

/// The tags whose elements are dropped, with their content, when fetched HTML
/// is converted: images, SVG, scripts, styles and `noscript`.
pub open spec fn fetch_strip_tags() -> Seq<Seq<char>> {
    seq!["img"@, "svg"@, "script"@, "style"@, "noscript"@]
}

/// What `html_to_markdown_rs::convert` makes of an HTML document with
/// preprocessing enabled or not, at a preset, with or without navigation and
/// form removal, and with the elements of the given tags stripped (every
/// other option at the crate's default): the converted text, or `None` when
/// conversion fails or yields no text.
pub uninterp spec fn markdown_of(
    html: Seq<char>,
    preprocess: bool,
    preset: MarkdownPreset,
    remove_navigation: bool,
    remove_forms: bool,
    strip_tags: Seq<Seq<char>>,
) -> Option<Seq<char>>;

/// Converts HTML with `html_to_markdown_rs::convert`, under options built
/// from the arguments.
///
/// Trusted: the result is the named conversion of the input under those
/// options.
#[verifier::external_body]
fn convert_html(
    html: &str,
    preprocess: bool,
    preset: MarkdownPreset,
    remove_navigation: bool,
    remove_forms: bool,
    strip_tags: &Vec<String>,
) -> (r: Option<String>)
    ensures
        match r {
            Some(s) => markdown_of(html@, preprocess, preset, remove_navigation, remove_forms, views(strip_tags@))
                == Some(s@),
            None => markdown_of(html@, preprocess, preset, remove_navigation, remove_forms, views(strip_tags@)) is None,
        },
{
    let preset = match preset {
        MarkdownPreset::Minimal => html_to_markdown_rs::PreprocessingPreset::Minimal,
        MarkdownPreset::Standard => html_to_markdown_rs::PreprocessingPreset::Standard,
        MarkdownPreset::Aggressive => html_to_markdown_rs::PreprocessingPreset::Aggressive,
    };
    let preprocessing = html_to_markdown_rs::PreprocessingOptions { enabled: preprocess, preset, remove_navigation, remove_forms };
    let options = html_to_markdown_rs::ConversionOptions { preprocessing, strip_tags: strip_tags.clone(), ..Default::default() };
    html_to_markdown_rs::convert(html, Some(options)).ok().and_then(|c| c.content)
}

/// The markdown for fetched HTML: aggressive preprocessing with navigation
/// and forms removed and the [`fetch_strip_tags`] elements stripped, or the
/// document itself when conversion gives nothing.
pub open spec fn markdown_text(html: Seq<char>) -> Seq<char> {
    match markdown_of(html, true, MarkdownPreset::Aggressive, true, true, fetch_strip_tags()) {
        Some(m) => m,
        None => html,
    }
}

/// Converts HTML to markdown for LLM-friendly output, falling back to the
/// HTML itself.
pub fn html_to_markdown(html: &str) -> (s: String)
    ensures
        s@ == markdown_text(html@),
{
    let strip_tags: Vec<String> = vec![owned("img"), owned("svg"), owned("script"), owned("style"), owned("noscript")];
    proof {
        assert(views(strip_tags@) =~= fetch_strip_tags());
    }
    match convert_html(html, true, MarkdownPreset::Aggressive, true, true, &strip_tags) {
        Some(m) => m,
        None => owned(html),
    }
}

/// What `serde_json` makes of a text when it parses it as a JSON value and
/// pretty-prints that value: `None` when the text is not JSON.
pub uninterp spec fn pretty_json(text: Seq<char>) -> Option<Seq<char>>;

/// Parses with `serde_json::from_str` and prints with
/// `serde_json::to_string_pretty`.
///
/// Trusted: the result is the named pretty-printing of the input.
#[verifier::external_body]
fn pretty_print_json(text: &str) -> (r: Option<String>)
    ensures
        match r {
            Some(s) => pretty_json(text@) == Some(s@),
            None => pretty_json(text@) is None,
        },
{
    serde_json::from_str::<serde_json::Value>(text).ok().and_then(|v| serde_json::to_string_pretty(&v).ok())
}

/// The pretty-printed JSON, or the text itself when it is not JSON.
pub open spec fn json_text(text: Seq<char>) -> Seq<char> {
    match pretty_json(text) {
        Some(p) => p,
        None => text,
    }
}

/// Formats JSON content for readability, leaving other text as it is.
pub fn format_json(json_str: &str) -> (s: String)
    ensures
        s@ == json_text(json_str@),
{
    match pretty_print_json(json_str) {
        Some(p) => p,
        None => owned(json_str),
    }
}

/// The processed content for a content type: HTML becomes markdown, JSON is
/// pretty-printed, anything else is kept.
pub open spec fn processed(raw: Seq<char>, content_type: Seq<char>) -> Seq<char> {
    if contains_seq(content_type, "text/html"@) {
        markdown_text(raw)
    } else if contains_seq(content_type, "application/json"@) {
        json_text(raw)
    } else {
        raw
    }
}

fn str_contains(s: &str, p: &str) -> (b: bool)
    ensures
        b == contains_seq(s@, p@),
{
    let v = to_chars(s);
    let w = to_chars(p);
    match crate::text::find_from(v.as_slice(), w.as_slice(), 0) {
        Some(_) => true,
        None => {
            assert forall|i: int| !crate::text::occurs_at(s@, p@, i) by {
                if i < 0 {
                }
            }
            false
        },
    }
}

/// Processes raw response content based on its content type.
pub fn process_content(raw_content: &str, content_type: &str) -> (s: String)
    ensures
        s@ == processed(raw_content@, content_type@),
{
    if str_contains(content_type, "text/html") {
        html_to_markdown(raw_content)
    } else if str_contains(content_type, "application/json") {
        format_json(raw_content)
    } else {
        owned(raw_content)
    }
}

/// Result of a URL fetch.
#[derive(Debug, Clone, PartialEq, Eq)]
pub struct WebFetchOutput {
    /// The processed content (HTML as markdown, JSON prettified).
    pub content: String,
    /// The Content-Type header value.
    pub content_type: String,
    /// Byte length of the body before processing.
    pub byte_length: usize,
}

/// Turns the body read into the fetch output: the bytes are decoded (lossily
/// where they are not UTF-8) and processed for their content type.
pub fn finish_fetch(body: FetchBody, content_type: String) -> (o: WebFetchOutput)
    ensures
        o.byte_length == body.bytes().len(),
        o.content@ == processed(utf8_text(body.bytes()), content_type@),
        o.content_type@ == content_type@,
{
    let byte_length = body.len();
    let bytes = body.into_bytes();
    let raw = string_from_utf8_or_lossy(bytes);
    let content = process_content(raw.as_str(), content_type.as_str());
    WebFetchOutput { content, content_type, byte_length }
}

} // verus!
