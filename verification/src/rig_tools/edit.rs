//! Exact string replacement for the rig-shaped edit tool.
//!
//! Unlike the framework-agnostic edit, this variant counts non-overlapping
//! occurrences and reports the count when a single replacement is ambiguous.
use crate::core_tools::edit::{
    count_matches, first_occurrence, replace_all_counted, replace_all_spec, splice, splice_chars,
};
use crate::rig_tools::error::{error_text, ToolError};
use crate::text::{chars_eq, contains_seq, decimal, find_from, occurs_at, owned, push_decimal, push_str, to_chars};
use vstd::prelude::*;

verus! {

/// Tool arguments for file editing.
#[derive(Debug, Clone, PartialEq, Eq)]
pub struct EditArgs {
    /// Absolute path to the file to modify.
    pub file_path: String,
    /// Exact text to find and replace.
    pub old_string: String,
    /// Replacement text.
    pub new_string: String,
    /// Replace all occurrences (default false).
    pub replace_all: bool,
}

/// Errors specific to edit operations.
#[derive(Debug, Clone, PartialEq, Eq)]
pub enum EditError {
    /// I/O or path validation failed.
    Tool(ToolError),
    /// old_string was empty.
    EmptyOldString,
    /// old_string and new_string are identical.
    IdenticalStrings,
    /// old_string not found in file.
    NotFound,
    /// Multiple matches found when replace_all=false; holds the match count.
    AmbiguousMatch(usize),
}

/// The text of an edit error; a tool error reads as itself.
pub open spec fn edit_error_text(e: EditError) -> Seq<char> {
    match e {
        EditError::Tool(t) => error_text(t),
        EditError::EmptyOldString => "old_string must not be empty"@,
        EditError::IdenticalStrings => "old_string and new_string must be different"@,
        EditError::NotFound => "old_string not found in file content"@,
        EditError::AmbiguousMatch(n) => "oldString found "@ + decimal(n as nat)
            + " times and requires more code context to uniquely identify the intended match"@,
    }
}

impl EditError {
    /// Renders the error as text.
    pub fn to_string(&self) -> (s: String)
        ensures
            s@ == edit_error_text(*self),
    {
        match self {
            EditError::Tool(t) => t.to_string(),
            EditError::EmptyOldString => owned("old_string must not be empty"),
            EditError::IdenticalStrings => owned("old_string and new_string must be different"),
            EditError::NotFound => owned("old_string not found in file content"),
            EditError::AmbiguousMatch(n) => {
                let mut s = owned("oldString found ");
                push_decimal(&mut s, *n as u64);
                push_str(&mut s, " times and requires more code context to uniquely identify the intended match");
                s
            },
        }
    }
}

/// Tool for making exact string replacements in files.
#[derive(Debug, Clone, Default, PartialEq, Eq)]
pub struct EditTool {}

impl EditTool {
    /// Creates a new [`EditTool`] instance.
    pub fn new() -> (t: Self)
        ensures
            t == (EditTool {}),
    {
        EditTool {  }
    }
}

/// What the rig edit tool computes for `content`: new content and the reported
/// count, or its error.
pub open spec fn rig_edit_spec(content: Seq<char>, old: Seq<char>, new: Seq<char>, replace_all: bool) -> Result<(Seq<char>, nat), EditError> {
    if old.len() == 0 {
        Err(EditError::EmptyOldString)
    } else if old == new {
        Err(EditError::IdenticalStrings)
    } else if count_matches(content, old) == 0 {
        Err(EditError::NotFound)
    } else if !replace_all && count_matches(content, old) > 1 {
        Err(EditError::AmbiguousMatch(count_matches(content, old) as usize))
    } else if replace_all {
        Ok((replace_all_spec(content, old, new), count_matches(content, old)))
    } else {
        let i = choose|i: int| first_occurrence(content, old, i);
        Ok((splice(content, i, old.len() as int, new), count_matches(content, old)))
    }
}

/// A positive count means an occurrence exists.
pub proof fn lemma_count_positive_contains(s: Seq<char>, p: Seq<char>)
    requires
        count_matches(s, p) > 0,
    ensures
        contains_seq(s, p),
    decreases s.len(),
{
    if occurs_at(s, p, 0) {
    } else {
        lemma_count_positive_contains(s.skip(1), p);
        let j = choose|j: int| occurs_at(s.skip(1), p, j);
        assert(s.skip(1).subrange(j, j + p.len()) =~= s.subrange(j + 1, j + 1 + p.len()));
        assert(occurs_at(s, p, j + 1));
    }
}

/// Validates the arguments that do not need the file: an empty `old_string`
/// and identical strings are refused before the path is looked at.
pub fn check_edit_args(old_string: &str, new_string: &str) -> (r: Result<(), EditError>)
    ensures
        old_string@.len() == 0 ==> r == Err::<(), EditError>(EditError::EmptyOldString),
        old_string@.len() > 0 && old_string@ == new_string@ ==> r == Err::<(), EditError>(
            EditError::IdenticalStrings,
        ),
        old_string@.len() > 0 && old_string@ != new_string@ ==> r is Ok,
{
    let o = to_chars(old_string);
    let n = to_chars(new_string);
    if o.len() == 0 {
        return Err(EditError::EmptyOldString);
    }
    if chars_eq(o.as_slice(), n.as_slice()) {
        return Err(EditError::IdenticalStrings);
    }
    Ok(())
}

/// Computes the new content and the reported count for an edit of `content`.
pub fn rig_edit_content(content: &str, old_string: &str, new_string: &str, replace_all: bool) -> (r:
    Result<(String, usize), EditError>)
    ensures
        match rig_edit_spec(content@, old_string@, new_string@, replace_all) {
            Ok((c, n)) => r matches Ok((s, k)) && s@ == c && k == n,
            Err(e) => r == Err::<(String, usize), EditError>(e),
        },
{
    check_edit_args(old_string, new_string)?;
    let c = to_chars(content);
    let o = to_chars(old_string);
    let nw = to_chars(new_string);
    let (replaced, count) = replace_all_counted(c.as_slice(), o.as_slice(), nw.as_slice());
    if count == 0 {
        return Err(EditError::NotFound);
    }
    if !replace_all && count > 1 {
        return Err(EditError::AmbiguousMatch(count));
    }
    if replace_all {
        return Ok((replaced, count));
    }
    proof {
        lemma_count_positive_contains(c@, o@);
    }
    match find_from(c.as_slice(), o.as_slice(), 0) {
        Some(idx) => {
            proof {
                assert(first_occurrence(c@, o@, idx as int));
                let k = choose|i: int| first_occurrence(c@, o@, i);
                assert(k == idx as int);
            }
            let s = splice_chars(c.as_slice(), idx, o.len(), nw.as_slice());
            Ok((s, count))
        },
        None => {
            proof {
                let j = choose|j: int| occurs_at(c@, o@, j);
                assert(!occurs_at(c@, o@, j));
            }
            Err(EditError::NotFound)
        },
    }
}

} // verus!
