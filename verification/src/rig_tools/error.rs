//! Error type and helpers shared by the rig-shaped tools.
use crate::text::{concat2, has_prefix, owned, push_str};
use vstd::prelude::*;

verus! {

/// Unified error type for the rig-shaped tool operations.
#[derive(Debug, Clone, PartialEq, Eq)]
pub enum ToolError {
    /// File I/O failed; holds the rendered I/O error.
    Io(String),
    /// Path validation failed (not absolute, doesn't exist, etc.).
    InvalidPath(String),
    /// Requested offset/limit exceeds file bounds.
    OutOfBounds(String),
    /// Glob/regex pattern is invalid.
    InvalidPattern(String),
    /// HTTP request failed.
    Http(String),
    /// Command execution failed.
    Execution(String),
    /// Timeout exceeded.
    Timeout(String),
    /// Validation failed.
    Validation(String),
    /// JSON serialization/deserialization failed; holds the rendered error.
    Json(String),
    /// Regex compilation failed; holds the rendered error.
    Regex(String),
}

/// The rendered text of an error.
pub open spec fn error_text(e: ToolError) -> Seq<char> {
    match e {
        ToolError::Io(m) => "I/O error: "@ + m@,
        ToolError::InvalidPath(m) => "invalid path: "@ + m@,
        ToolError::OutOfBounds(m) => "out of bounds: "@ + m@,
        ToolError::InvalidPattern(m) => "invalid pattern: "@ + m@,
        ToolError::Http(m) => "HTTP error: "@ + m@,
        ToolError::Execution(m) => "execution error: "@ + m@,
        ToolError::Timeout(m) => "timeout: "@ + m@,
        ToolError::Validation(m) => "validation error: "@ + m@,
        ToolError::Json(m) => "JSON error: "@ + m@,
        ToolError::Regex(m) => "regex error: "@ + m@,
    }
}

impl ToolError {
    /// Renders the error as text.
    pub fn to_string(&self) -> (s: String)
        ensures
            s@ == error_text(*self),
    {
        match self {
            ToolError::Io(m) => concat2("I/O error: ", m.as_str()),
            ToolError::InvalidPath(m) => concat2("invalid path: ", m.as_str()),
            ToolError::OutOfBounds(m) => concat2("out of bounds: ", m.as_str()),
            ToolError::InvalidPattern(m) => concat2("invalid pattern: ", m.as_str()),
            ToolError::Http(m) => concat2("HTTP error: ", m.as_str()),
            ToolError::Execution(m) => concat2("execution error: ", m.as_str()),
            ToolError::Timeout(m) => concat2("timeout: ", m.as_str()),
            ToolError::Validation(m) => concat2("validation error: ", m.as_str()),
            ToolError::Json(m) => concat2("JSON error: ", m.as_str()),
            ToolError::Regex(m) => concat2("regex error: ", m.as_str()),
        }
    }
}

/// Whether a Unix path is absolute: it starts at the root `/`.
pub open spec fn is_absolute_path(p: Seq<char>) -> bool {
    has_prefix(p, seq!['/'])
}

/// The message given for a path that is not absolute.
pub open spec fn not_absolute_message(p: Seq<char>) -> Seq<char> {
    "path must be absolute: "@ + p
}

/// Accepts absolute paths and refuses the others with [`ToolError::InvalidPath`].
pub fn validate_absolute_path(path: &str) -> (r: Result<(), ToolError>)
    ensures
        is_absolute_path(path@) ==> r is Ok,
        !is_absolute_path(path@) ==> (r matches Err(ToolError::InvalidPath(m)) && m@
            == not_absolute_message(path@)),
{
    let v = crate::text::to_chars(path);
    let slash = ['/'];
    let ok = crate::text::starts_with(v.as_slice(), slash.as_slice());
    proof {
        assert(slash@ == seq!['/']);
    }
    if ok {
        Ok(())
    } else {
        let mut m = owned("path must be absolute: ");
        push_str(&mut m, path);
        Err(ToolError::InvalidPath(m))
    }
}

} // verus!
