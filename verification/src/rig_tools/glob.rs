//! Glob file finding: matching walked files against a pattern and ordering
//! them newest first.
//!
//! Walking the tree (respecting `.gitignore`) is the caller's part; this module
//! validates the search path, compiles the pattern, keeps the matching files and
//! shapes the result.
use crate::core_tools::glob::{
    first_paths, item_paths, kept_count, positioned, sort_entries, sorted_items, GlobEntry,
    SortItem,
};
use crate::rig_tools::error::{is_absolute_path, not_absolute_message, validate_absolute_path, ToolError};
use crate::text::{owned, push_str, to_chars, views};
use vstd::prelude::*;

verus! {

broadcast use vstd::seq_lib::group_to_multiset_ensures;

/// Maximum number of file matches returned.
pub const MAX_RESULTS: usize = 1000;

/// Arguments for the glob tool.
#[derive(Debug, Clone, PartialEq, Eq)]
pub struct GlobArgs {
    /// Glob pattern to match files against (e.g. `"**/*.rs"`).
    pub pattern: String,
    /// Absolute directory path to search in.
    pub path: String,
}

/// Output from the glob tool.
#[derive(Debug, Clone, PartialEq, Eq)]
pub struct GlobOutput {
    /// Matched file paths relative to the search directory, newest first.
    pub files: Vec<String>,
    /// Whether results were truncated due to the limit.
    pub truncated: bool,
}

/// Tool for finding files matching glob patterns.
#[derive(Debug, Default, Clone, Copy, PartialEq, Eq)]
pub struct GlobTool;

#[verifier::external_type_specification]
#[verifier::external_body]
pub struct ExGlobPattern(glob::Pattern);

/// A compiled `glob` pattern together with the text it was compiled from.
pub struct CompiledPattern {
    text: String,
    pattern: glob::Pattern,
}

impl CompiledPattern {
    /// The text this pattern was compiled from.
    pub closed spec fn text(&self) -> Seq<char> {
        self.text@
    }
}

/// What `glob::Pattern::new` reports for a pattern: `None` when it compiles,
/// otherwise the rendered `PatternError`.
pub uninterp spec fn pattern_error(pattern: Seq<char>) -> Option<Seq<char>>;

/// Whether the pattern compiled from `pattern` matches `path` under the default
/// match options (`glob::Pattern::matches`).
pub uninterp spec fn pattern_matches(pattern: Seq<char>, path: Seq<char>) -> bool;

/// Compiles a pattern with `glob::Pattern::new`.
///
/// Trusted: it succeeds exactly when the named error is `None`, the error text
/// is the rendered `PatternError`, and the compiled pattern keeps its text.
#[verifier::external_body]
fn compile_pattern(pattern: &str) -> (r: Result<CompiledPattern, String>)
    ensures
        r is Ok <==> pattern_error(pattern@) is None,
        r matches Ok(p) ==> p.text() == pattern@,
        r matches Err(m) ==> pattern_error(pattern@) == Some(m@),
{
    match glob::Pattern::new(pattern) {
        Ok(p) => Ok(CompiledPattern { text: pattern.to_string(), pattern: p }),
        Err(e) => Err(e.to_string()),
    }
}

/// Matches a path with `glob::Pattern::matches`.
///
/// Trusted: the answer is the named match result for the pattern's text.
#[verifier::external_body]
fn matches_pattern(p: &CompiledPattern, path: &str) -> (b: bool)
    ensures
        b == pattern_matches(p.text(), path@),
{
    p.pattern.matches(path)
}

/// The walked files with a non-empty relative path that match `pattern`, in
/// walk order.
pub open spec fn matching_files(pattern: Seq<char>, walked: Seq<GlobEntry>) -> Seq<GlobEntry>
    decreases walked.len(),
{
    if walked.len() == 0 {
        Seq::empty()
    } else {
        let prev = matching_files(pattern, walked.drop_last());
        let e = walked.last();
        if e.path@.len() > 0 && pattern_matches(pattern, e.path@) {
            prev.push(e)
        } else {
            prev
        }
    }
}

/// The message given for a search path that is not a directory.
pub open spec fn not_directory_message(p: Seq<char>) -> Seq<char> {
    "path is not a directory: "@ + p
}

/// The output for the matched files: newest first, equal times in walk order,
/// at most [`MAX_RESULTS`] of them.
pub open spec fn glob_output_spec(entries: Seq<GlobEntry>, o: GlobOutput) -> bool {
    &&& exists|s: Seq<SortItem>|
        s.to_multiset() == positioned(entries).to_multiset() && sorted_items(s, false)
            && views(o.files@) == item_paths(s).take(kept_count(entries.len(), MAX_RESULTS as nat) as int)
    &&& o.truncated == (entries.len() > MAX_RESULTS)
}

impl GlobTool {
    /// Creates the glob tool.
    pub fn new() -> (t: Self) {
        GlobTool
    }

    /// Finds the files of the walk of `search_path` that match `pattern`.
    ///
    /// `is_dir` tells whether the search path is a directory, and `walked`
    /// holds the files of the walk (relative paths and modification times, the
    /// epoch where the time is unknown) in walk order.
    pub fn glob_files(pattern: &str, search_path: &str, is_dir: bool, walked: Vec<GlobEntry>) -> (r: Result<GlobOutput, ToolError>)
        ensures
            !is_absolute_path(search_path@) ==> (r matches Err(ToolError::InvalidPath(m)) && m@
                == not_absolute_message(search_path@)),
            is_absolute_path(search_path@) && !is_dir ==> (r matches Err(ToolError::InvalidPath(m))
                && m@ == not_directory_message(search_path@)),
            is_absolute_path(search_path@) && is_dir ==> match pattern_error(pattern@) {
                Some(e) => r matches Err(ToolError::InvalidPattern(m)) && m@ == e,
                None => r matches Ok(o) && glob_output_spec(matching_files(pattern@, walked@), o),
            },
    {
        validate_absolute_path(search_path)?;
        if !is_dir {
            let mut m = owned("path is not a directory: ");
            push_str(&mut m, search_path);
            return Err(ToolError::InvalidPath(m));
        }
        let compiled = match compile_pattern(pattern) {
            Ok(p) => p,
            Err(e) => return Err(ToolError::InvalidPattern(e)),
        };
        let mut entries: Vec<GlobEntry> = Vec::new();
        let mut i: usize = 0;
        while i < walked.len()
            invariant
                i <= walked@.len(),
                compiled.text() == pattern@,
                entries@ == matching_files(pattern@, walked@.take(i as int)),
            decreases walked@.len() - i,
        {
            let w = &walked[i];
            proof {
                assert(walked@.take(i + 1).drop_last() == walked@.take(i as int));
                assert(walked@.take(i + 1).last() == walked@[i as int]);
            }
            let nonempty = to_chars(w.path.as_str()).len() > 0;
            if nonempty && matches_pattern(&compiled, w.path.as_str()) {
                let e = GlobEntry {
                    path: w.path.clone(),
                    mtime_secs: w.mtime_secs,
                    mtime_nanos: w.mtime_nanos,
                };
                entries.push(e);
            }
            i = i + 1;
        }
        assert(walked@.take(walked@.len() as int) == walked@);
        let total = entries.len();
        let truncated = total > MAX_RESULTS;
        let ghost kept = entries@;
        let sorted = sort_entries(entries, false);
        let count = if total <= MAX_RESULTS {
            total
        } else {
            MAX_RESULTS
        };
        proof {
            assert(sorted@.len() == sorted@.to_multiset().len());
            assert(positioned(kept).len() == positioned(kept).to_multiset().len());
        }
        let files = first_paths(&sorted, count);
        Ok(GlobOutput { files, truncated })
    }
}

} // verus!
