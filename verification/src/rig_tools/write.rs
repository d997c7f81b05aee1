//! The write tool: checking the target path and confirming the write.
//!
//! Creating directories and writing the bytes are the caller's part.
use crate::core_tools::write::{write_message, written_message};
use crate::rig_tools::error::{is_absolute_path, not_absolute_message, validate_absolute_path, ToolError};
use vstd::prelude::*;

verus! {

/// Arguments for the write tool.
#[derive(Debug, Clone, PartialEq, Eq)]
pub struct WriteToolArgs {
    /// Absolute path of the file to write.
    pub file_path: String,
    /// Content to write to the file.
    pub content: String,
}

/// Tool for writing content to files, creating parent directories and
/// overwriting existing files.
#[derive(Debug, Clone, Copy, Default, PartialEq, Eq)]
pub struct WriteTool;

impl WriteTool {
    /// Creates the write tool.
    pub fn new() -> (t: Self) {
        WriteTool
    }

    /// Refuses a target path that is not absolute.
    pub fn check_args(args: &WriteToolArgs) -> (r: Result<(), ToolError>)
        ensures
            is_absolute_path(args.file_path@) ==> r is Ok,
            !is_absolute_path(args.file_path@) ==> (r matches Err(ToolError::InvalidPath(m)) && m@
                == not_absolute_message(args.file_path@)),
    {
        validate_absolute_path(args.file_path.as_str())
    }

    /// The confirmation after the write succeeded.
    pub fn success_message(args: &WriteToolArgs) -> (s: String)
        ensures
            s@ == written_message(args.content@, args.file_path@),
    {
        write_message(args.content.as_str(), args.file_path.as_str())
    }
}

} // verus!
