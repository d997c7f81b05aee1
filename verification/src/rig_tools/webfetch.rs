//! The web fetch tool: size checks on the response and the rendering of the
//! fetched content.
//!
//! Sending the request and reading the body are the caller's part.
use crate::core_tools::webfetch::{process_content, processed, RequestFailure};
use crate::rig_tools::error::ToolError;
use crate::rig_tools::util::{longest_fitting_prefix, truncate_text, utf8_size};
use crate::text::{decimal, owned, push_decimal, push_str};
use crate::utf8::{string_from_utf8_or_lossy, utf8_text};
use vstd::prelude::*;

verus! {

/// Maximum response size accepted (5 MiB).
pub const MAX_RESPONSE_SIZE: usize = 5242880;

/// Size in bytes above which the content is truncated (100 KiB).
pub const CONTENT_TRUNCATE_SIZE: usize = 102400;

/// Default request timeout in milliseconds.
pub const DEFAULT_TIMEOUT_MS: u64 = 30000;

/// Maximum number of redirects followed.
pub const MAX_REDIRECTS: usize = 10;

/// The timeout used when the arguments give none.
pub fn default_timeout_ms() -> (t: u64)
    ensures
        t == DEFAULT_TIMEOUT_MS,
{
    DEFAULT_TIMEOUT_MS
}

/// Arguments for [`WebFetchTool`].
#[derive(Debug, Clone, PartialEq, Eq)]
pub struct WebFetchArgs {
    /// URL to fetch content from.
    pub url: String,
    /// Request timeout in milliseconds.
    pub timeout_ms: u64,
}

/// Tool for fetching web content: HTML as markdown, JSON prettified, other
/// text as it is.
#[derive(Debug, Clone, Copy, Default, PartialEq, Eq)]
pub struct WebFetchTool;

/// The message refusing a response of `len` bytes over the cap `max`.
pub open spec fn too_large(len: nat, max: nat) -> Seq<char> {
    "Response too large: "@ + decimal(len) + " bytes (max "@ + decimal(max) + ")"@
}

fn too_large_error(len: u64, max: usize) -> (e: ToolError)
    ensures
        e matches ToolError::Http(m) && m@ == too_large(len as nat, max as nat),
{
    let mut m = owned("Response too large: ");
    push_decimal(&mut m, len);
    push_str(&mut m, " bytes (max ");
    push_decimal(&mut m, max as u64);
    push_str(&mut m, ")");
    ToolError::Http(m)
}

/// The rendered tool output for a fetched body.
pub open spec fn fetch_text(url: Seq<char>, content_type: Seq<char>, bytes: Seq<u8>, content: Seq<char>, truncated: bool) -> Seq<char> {
    "URL: "@ + url + "\nContent-Type: "@ + content_type + "\nLength: "@ + decimal(bytes.len())
        + " bytes\n\n"@ + content + if truncated {
        "\n\n[Content truncated]"@
    } else {
        Seq::empty()
    }
}

impl WebFetchTool {
    /// Creates the web fetch tool.
    pub fn new() -> (t: Self) {
        WebFetchTool
    }

    /// Refuses a response whose announced length is over the cap.
    pub fn check_content_length(content_length: Option<u64>) -> (r: Result<(), ToolError>)
        ensures
            match content_length {
                Some(len) => if (len as usize) > MAX_RESPONSE_SIZE {
                    r matches Err(ToolError::Http(m)) && m@ == too_large(len as nat, MAX_RESPONSE_SIZE as nat)
                } else {
                    r is Ok
                },
                None => r is Ok,
            },
    {
        if let Some(len) = content_length {
            if (len as usize) > MAX_RESPONSE_SIZE {
                return Err(too_large_error(len, MAX_RESPONSE_SIZE));
            }
        }
        Ok(())
    }

    /// Refuses a body over `max_size` bytes.
    pub fn check_body(bytes: &Vec<u8>, max_size: usize) -> (r: Result<(), ToolError>)
        ensures
            bytes@.len() > max_size ==> (r matches Err(ToolError::Http(m)) && m@ == too_large(
                bytes@.len(),
                max_size as nat,
            )),
            bytes@.len() <= max_size ==> r is Ok,
    {
        if bytes.len() > max_size {
            return Err(too_large_error(bytes.len() as u64, max_size));
        }
        Ok(())
    }

    /// Renders a fetched body: decoded (lossily where not UTF-8), processed
    /// for its content type, cut to [`CONTENT_TRUNCATE_SIZE`] bytes, under a
    /// header with the URL, content type and body length.
    pub fn render(url: &str, content_type: &str, bytes: Vec<u8>) -> (s: String)
        ensures
            ({
                let text = processed(utf8_text(bytes@), content_type@);
                if utf8_size(text) <= CONTENT_TRUNCATE_SIZE {
                    s@ == fetch_text(url@, content_type@, bytes@, text, false)
                } else {
                    exists|k: int|
                        longest_fitting_prefix(text, CONTENT_TRUNCATE_SIZE as nat, k) && s@ == fetch_text(
                            url@,
                            content_type@,
                            bytes@,
                            text.take(k),
                            true,
                        )
                }
            }),
    {
        let len = bytes.len();
        let ghost body = bytes@;
        let raw = string_from_utf8_or_lossy(bytes);
        let text = process_content(raw.as_str(), content_type);
        let (content, truncated) = truncate_text(text.as_str(), CONTENT_TRUNCATE_SIZE);
        let mut out = owned("URL: ");
        push_str(&mut out, url);
        push_str(&mut out, "\nContent-Type: ");
        push_str(&mut out, content_type);
        push_str(&mut out, "\nLength: ");
        push_decimal(&mut out, len as u64);
        push_str(&mut out, " bytes\n\n");
        push_str(&mut out, content.as_str());
        if truncated {
            push_str(&mut out, "\n\n[Content truncated]");
        }
        proof {
            if !truncated {
                assert(out@ =~= fetch_text(url@, content_type@, body, content@, false));
            } else {
                assert(out@ =~= fetch_text(url@, content_type@, body, content@, true));
            }
        }
        out
    }
}

/// Turns a failure to send the request into a tool error; `rendered` is the
/// failure's own message.
pub fn categorize_request_failure(kind: RequestFailure, rendered: &str, url: &str) -> (e: ToolError)
    ensures
        match kind {
            RequestFailure::Timeout => e matches ToolError::Timeout(m) && m@ == "Request timed out for "@ + url@,
            RequestFailure::Connect => e matches ToolError::Http(m) && m@ == "Connection failed for "@ + url@
                + ": "@ + rendered@,
            RequestFailure::Redirect => e matches ToolError::Http(m) && m@ == "Too many redirects for "@ + url@,
            RequestFailure::Other => e matches ToolError::Http(m) && m@ == rendered@,
        },
{
    match kind {
        RequestFailure::Timeout => {
            let mut m = owned("Request timed out for ");
            push_str(&mut m, url);
            ToolError::Timeout(m)
        },
        RequestFailure::Connect => {
            let mut m = owned("Connection failed for ");
            push_str(&mut m, url);
            push_str(&mut m, ": ");
            push_str(&mut m, rendered);
            ToolError::Http(m)
        },
        RequestFailure::Redirect => {
            let mut m = owned("Too many redirects for ");
            push_str(&mut m, url);
            ToolError::Http(m)
        },
        RequestFailure::Other => ToolError::Http(owned(rendered)),
    }
}

/// Refuses a response whose status is not a success; `status` is the
/// rendered status, such as `404 Not Found`.
pub fn check_status(code: u16, status: &str, url: &str) -> (r: Result<(), ToolError>)
    ensures
        200 <= code < 300 ==> r is Ok,
        !(200 <= code < 300) ==> (r matches Err(ToolError::Http(m)) && m@ == "HTTP "@ + status@
            + " for "@ + url@),
{
    if 200 <= code && code < 300 {
        return Ok(());
    }
    let mut m = owned("HTTP ");
    push_str(&mut m, status);
    push_str(&mut m, " for ");
    push_str(&mut m, url);
    Err(ToolError::Http(m))
}

} // verus!
