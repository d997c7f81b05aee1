//! File writing: the request, its settings and the confirmation text.
//!
//! Creating directories and writing the bytes are the caller's part.
use crate::text::{decimal, owned, push_decimal, push_str};
use vstd::prelude::*;
use vstd::utf8::encode_utf8;

verus! {

/// A write request.
#[derive(Debug, Clone, PartialEq, Eq)]
pub struct WriteRequest {
    /// The file to write.
    pub file_path: String,
    /// The text to write.
    pub content: String,
}

/// Runtime settings for write requests (none yet).
#[derive(Debug, Clone, Default, PartialEq, Eq)]
pub struct WriteSettings {}

impl WriteSettings {
    /// Creates default write settings.
    pub fn new() -> (s: Self) {
        WriteSettings {}
    }
}

/// The confirmation for writing `content` to `path`: the UTF-8 byte count of
/// the content and the path.
pub open spec fn written_message(content: Seq<char>, path: Seq<char>) -> Seq<char> {
    "Successfully wrote "@ + decimal(encode_utf8(content).len()) + " bytes to "@ + path
}

/// The confirmation after `content` was written to `path`.
pub fn write_message(content: &str, path: &str) -> (s: String)
    ensures
        s@ == written_message(content@, path@),
{
    let len = content.as_bytes().len();
    let mut out = owned("Successfully wrote ");
    push_decimal(&mut out, len as u64);
    push_str(&mut out, " bytes to ");
    push_str(&mut out, path);
    out
}

} // verus!
