//! Error and output types shared by the framework-agnostic tools.
use crate::text::{concat2, push_str};
use vstd::prelude::*;

verus! {

/// Unified error type for tool operations.
#[derive(Debug, Clone, PartialEq, Eq)]
pub enum ToolError {
    /// File I/O failed; holds the rendered I/O error.
    Io(String),
    /// Path validation failed.
    InvalidPath(String),
    /// Requested offset/limit exceeds bounds.
    OutOfBounds(String),
    /// A glob or regex pattern is invalid.
    InvalidPattern(String),
    /// An HTTP request failed.
    Http(String),
    /// Command execution failed.
    Execution(String),
    /// A timeout was exceeded.
    Timeout(String),
    /// A timeout was exceeded and killing the process also failed.
    TimeoutWithKillFailure { message: String, kill_error: String },
    /// Input validation failed, optionally naming the offending field.
    Validation { field: Option<String>, message: String },
    /// A JSON payload could not be decoded; holds the rendered error.
    Json(String),
    /// A permission ruleset refused the operation.
    PermissionDenied { tool: String, subject: String },
}

/// The rendered text of an error.
pub open spec fn error_text(e: ToolError) -> Seq<char> {
    match e {
        ToolError::Io(m) => "I/O error: "@ + m@,
        ToolError::InvalidPath(m) => "invalid path: "@ + m@,
        ToolError::OutOfBounds(m) => "out of bounds: "@ + m@,
        ToolError::InvalidPattern(m) => "invalid pattern: "@ + m@,
        ToolError::Http(m) => "HTTP error: "@ + m@,
        ToolError::Execution(m) => "execution error: "@ + m@,
        ToolError::Timeout(m) => "timeout: "@ + m@,
        ToolError::TimeoutWithKillFailure { message, kill_error } => "timeout: "@ + message@
            + " (failed to kill process: "@ + kill_error@ + ")"@,
        ToolError::Validation { field: _, message } => "validation error: "@ + message@,
        ToolError::Json(m) => "JSON error: "@ + m@,
        ToolError::PermissionDenied { tool, subject } => "permission denied for tool '"@ + tool@
            + "' on subject '"@ + subject@ + "'"@,
    }
}

impl ToolError {
    /// Renders the error as text.
    pub fn to_string(&self) -> (s: String)
        ensures
            s@ == error_text(*self),
    {
        match self {
            ToolError::Io(m) => concat2("I/O error: ", m.as_str()),
            ToolError::InvalidPath(m) => concat2("invalid path: ", m.as_str()),
            ToolError::OutOfBounds(m) => concat2("out of bounds: ", m.as_str()),
            ToolError::InvalidPattern(m) => concat2("invalid pattern: ", m.as_str()),
            ToolError::Http(m) => concat2("HTTP error: ", m.as_str()),
            ToolError::Execution(m) => concat2("execution error: ", m.as_str()),
            ToolError::Timeout(m) => concat2("timeout: ", m.as_str()),
            ToolError::TimeoutWithKillFailure { message, kill_error } => {
                let mut s = concat2("timeout: ", message.as_str());
                push_str(&mut s, " (failed to kill process: ");
                push_str(&mut s, kill_error.as_str());
                push_str(&mut s, ")");
                s
            },
            ToolError::Validation { field: _, message } => concat2(
                "validation error: ",
                message.as_str(),
            ),
            ToolError::Json(m) => concat2("JSON error: ", m.as_str()),
            ToolError::PermissionDenied { tool, subject } => {
                let mut s = concat2("permission denied for tool '", tool.as_str());
                push_str(&mut s, "' on subject '");
                push_str(&mut s, subject.as_str());
                push_str(&mut s, "'");
                s
            },
        }
    }

    /// A validation error attached to `field`.
    pub fn validation_for(field: &str, message: String) -> (e: ToolError)
        ensures
            e matches ToolError::Validation { field: Some(f), message: m } && f@ == field@ && m@
                == message@,
    {
        ToolError::Validation { field: Some(crate::text::owned(field)), message }
    }
}

/// Text returned to the model by a tool, with a flag telling whether it was cut short.
#[derive(Debug, Clone, PartialEq, Eq)]
pub struct ToolOutput {
    /// The text content.
    pub content: String,
    /// Whether the content was truncated.
    pub truncated: bool,
}

impl ToolOutput {
    /// Output that was not truncated.
    pub fn new(content: String) -> (o: ToolOutput)
        ensures
            o.content@ == content@,
            !o.truncated,
    {
        ToolOutput { content, truncated: false }
    }

    /// Output that was truncated.
    pub fn truncated(content: String) -> (o: ToolOutput)
        ensures
            o.content@ == content@,
            o.truncated,
    {
        ToolOutput { content, truncated: true }
    }
}

} // verus!
