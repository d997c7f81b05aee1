//! Conversions from the framework-agnostic tool results into what the agent
//! runtime hands back to the model.
use crate::core_tools::error::{error_text, ToolError, ToolOutput};
use crate::text::{concat2, has_prefix, owned, push_str, to_chars};
use vstd::prelude::*;

verus! {

/// What a tool hands back to the model.
#[derive(Debug, Clone, PartialEq, Eq)]
pub enum ToolReturn {
    /// Plain text.
    Text(String),
    /// The JSON object `{"content": .., "truncated": true}`.
    TruncatedJson { content: String },
    /// The JSON object `{"content": .., "partial": true, "errors": [..], "truncated": ..}`.
    PartialJson { content: String, errors: Vec<String>, truncated: bool },
}

impl ToolReturn {
    /// The text of a plain-text return.
    pub fn as_text(&self) -> (r: Option<&str>)
        ensures
            match *self {
                ToolReturn::Text(t) => r matches Some(s) && s@ == t@,
                _ => r is None,
            },
    {
        match self {
            ToolReturn::Text(t) => Some(t.as_str()),
            _ => None,
        }
    }
}

/// A tool failure as the agent runtime reports it.
#[derive(Debug, Clone, PartialEq, Eq)]
pub enum SerdesToolError {
    /// The model's input was invalid; the model may retry with other arguments.
    ValidationFailed { tool_name: String, field: Option<String>, message: String },
    /// The tool failed at run time.
    ExecutionFailed { message: String },
}

impl SerdesToolError {
    /// The failure's message.
    pub fn message(&self) -> (m: &str)
        ensures
            match *self {
                SerdesToolError::ValidationFailed { message, .. } => m@ == message@,
                SerdesToolError::ExecutionFailed { message } => m@ == message@,
            },
    {
        match self {
            SerdesToolError::ValidationFailed { message, .. } => message.as_str(),
            SerdesToolError::ExecutionFailed { message } => message.as_str(),
        }
    }
}

/// The return for a tool output: text when complete, the truncated JSON
/// object otherwise.
pub open spec fn output_return_spec(o: ToolOutput) -> ToolReturn {
    if o.truncated {
        ToolReturn::TruncatedJson { content: o.content }
    } else {
        ToolReturn::Text(o.content)
    }
}

/// Converts a tool output into the return handed to the model.
pub fn output_to_return(output: ToolOutput) -> (r: ToolReturn)
    ensures
        r == output_return_spec(output),
{
    if output.truncated {
        ToolReturn::TruncatedJson { content: output.content }
    } else {
        ToolReturn::Text(output.content)
    }
}

/// The field that an out-of-bounds message is about, judged by how it starts.
pub open spec fn out_of_bounds_field(msg: Seq<char>) -> Option<Seq<char>> {
    if has_prefix(msg, "offset "@) || has_prefix(msg, "offset must"@) {
        Some("offset"@)
    } else if has_prefix(msg, "limit "@) || has_prefix(msg, "limit must"@) {
        Some("limit"@)
    } else {
        None
    }
}

fn starts_with_str(s: &str, p: &str) -> (b: bool)
    ensures
        b == has_prefix(s@, p@),
{
    let v = to_chars(s);
    let w = to_chars(p);
    crate::text::starts_with(v.as_slice(), w.as_slice())
}

/// Names the field an out-of-bounds message is about (`offset` or `limit`).
pub fn field_for_out_of_bounds(msg: &str) -> (r: Option<String>)
    ensures
        match out_of_bounds_field(msg@) {
            Some(f) => r matches Some(s) && s@ == f,
            None => r is None,
        },
{
    if starts_with_str(msg, "offset ") || starts_with_str(msg, "offset must") {
        Some(owned("offset"))
    } else if starts_with_str(msg, "limit ") || starts_with_str(msg, "limit must") {
        Some(owned("limit"))
    } else {
        None
    }
}

/// Whether an error describes bad input rather than a run-time failure.
pub open spec fn is_input_error(e: ToolError) -> bool {
    match e {
        ToolError::InvalidPath(_) | ToolError::InvalidPattern(_) | ToolError::OutOfBounds(_)
        | ToolError::Validation { .. } | ToolError::Json(_) => true,
        _ => false,
    }
}

/// The runtime error for a tool error: input problems become validation
/// failures carrying the tool name, the field where one is known, and the
/// message; the rest become execution failures with the rendered error.
pub open spec fn serdes_error_spec(tool_name: Seq<char>, err: ToolError, r: SerdesToolError) -> bool {
    match err {
        ToolError::InvalidPath(m) => r matches SerdesToolError::ValidationFailed { tool_name: t, field: Some(f), message }
            && t@ == tool_name && f@ == "path"@ && message@ == m@,
        ToolError::InvalidPattern(m) => r matches SerdesToolError::ValidationFailed { tool_name: t, field: Some(f), message }
            && t@ == tool_name && f@ == "pattern"@ && message@ == m@,
        ToolError::OutOfBounds(m) => r matches SerdesToolError::ValidationFailed { tool_name: t, field, message }
            && t@ == tool_name && message@ == m@ && match out_of_bounds_field(m@) {
                Some(name) => field matches Some(f) && f@ == name,
                None => field is None,
            },
        ToolError::Validation { field: vf, message: vm } => r matches SerdesToolError::ValidationFailed { tool_name: t, field, message }
            && t@ == tool_name && field == vf && message@ == vm@,
        ToolError::Json(m) => r matches SerdesToolError::ValidationFailed { tool_name: t, field: None, message }
            && t@ == tool_name && message@ == m@,
        ToolError::PermissionDenied { tool, subject } => r matches SerdesToolError::ExecutionFailed { message }
            && message@ == "Permission denied for tool '"@ + tool@ + "' on subject '"@ + subject@ + "'"@,
        _ => r matches SerdesToolError::ExecutionFailed { message } && message@ == error_text(err),
    }
}

/// Converts a core tool error into the runtime's error, naming the tool.
pub fn core_error_to_serdes(tool_name: &str, err: ToolError) -> (r: SerdesToolError)
    ensures
        serdes_error_spec(tool_name@, err, r),
{
    let rendered = err.to_string();
    match err {
        ToolError::InvalidPath(msg) => SerdesToolError::ValidationFailed {
            tool_name: owned(tool_name),
            field: Some(owned("path")),
            message: msg,
        },
        ToolError::InvalidPattern(msg) => SerdesToolError::ValidationFailed {
            tool_name: owned(tool_name),
            field: Some(owned("pattern")),
            message: msg,
        },
        ToolError::OutOfBounds(msg) => {
            let field = field_for_out_of_bounds(msg.as_str());
            SerdesToolError::ValidationFailed { tool_name: owned(tool_name), field, message: msg }
        },
        ToolError::Validation { field, message } => SerdesToolError::ValidationFailed {
            tool_name: owned(tool_name),
            field,
            message,
        },
        ToolError::Json(msg) => SerdesToolError::ValidationFailed {
            tool_name: owned(tool_name),
            field: None,
            message: msg,
        },
        ToolError::PermissionDenied { tool, subject } => {
            let mut m = concat2("Permission denied for tool '", tool.as_str());
            push_str(&mut m, "' on subject '");
            push_str(&mut m, subject.as_str());
            push_str(&mut m, "'");
            SerdesToolError::ExecutionFailed { message: m }
        },
        _ => SerdesToolError::ExecutionFailed { message: rendered },
    }
}

/// Converts a core tool result into the runtime's result.
pub fn to_serdes_result(tool_name: &str, result: Result<ToolOutput, ToolError>) -> (r: Result<ToolReturn, SerdesToolError>)
    ensures
        match result {
            Ok(o) => r == Ok::<ToolReturn, SerdesToolError>(output_return_spec(o)),
            Err(e) => r matches Err(se) && serdes_error_spec(tool_name@, e, se),
        },
{
    match result {
        Ok(o) => Ok(output_to_return(o)),
        Err(e) => Err(core_error_to_serdes(tool_name, e)),
    }
}

} // verus!
