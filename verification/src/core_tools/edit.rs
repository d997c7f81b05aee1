//! Exact string replacement, the pure part of the edit tool.
//!
//! The edit tool reads a file, replaces `old_string` with `new_string` and
//! writes the result back. [`edit_content`] computes the new content and the
//! number of replacements, or the reason the edit is refused.
use crate::core_tools::error::ToolError;
use crate::text::{
    chars_eq, contains_seq, decimal, find_from, matches_at, occurs_at, owned, push_char, push_chars,
    push_decimal, push_str, to_chars,
};
use vstd::prelude::*;

verus! {

/// Errors specific to the edit tool.
#[derive(Debug, Clone, PartialEq, Eq)]
pub enum EditError {
    /// I/O or path validation error.
    Tool(ToolError),
    /// The old_string parameter was empty.
    EmptyOldString,
    /// The old_string and new_string are identical.
    IdenticalStrings,
    /// The old_string was not found in the file.
    NotFound,
    /// Multiple matches found when replace_all is false.
    AmbiguousMatch,
}

/// The field name reported with every edit refusal.
pub open spec fn edit_field() -> Seq<char> {
    "old_string"@
}

/// The message a tool error carries for each edit refusal.
pub open spec fn edit_refusal_message(e: EditError) -> Seq<char> {
    match e {
        EditError::NotFound => "old_string not found in file content"@,
        EditError::AmbiguousMatch =>
            "old_string found multiple times and requires more code context to uniquely identify the intended match"@,
        EditError::EmptyOldString => "old_string must not be empty"@,
        EditError::IdenticalStrings => "old_string and new_string must be different"@,
        EditError::Tool(_) => Seq::empty(),
    }
}

impl EditError {
    /// Converts an edit error into the tool error reported to the caller: an
    /// I/O or path error passes through, every refusal becomes a validation
    /// error on `old_string`.
    pub fn into_tool_error(self) -> (t: ToolError)
        ensures
            match self {
                EditError::Tool(inner) => t == inner,
                _ => t matches ToolError::Validation { field: Some(f), message: m } && f@
                    == edit_field() && m@ == edit_refusal_message(self),
            },
    {
        match self {
            EditError::NotFound => ToolError::validation_for(
                "old_string",
                owned("old_string not found in file content"),
            ),
            EditError::AmbiguousMatch => ToolError::validation_for(
                "old_string",
                owned(
                    "old_string found multiple times and requires more code context to uniquely identify the intended match",
                ),
            ),
            EditError::EmptyOldString => ToolError::validation_for(
                "old_string",
                owned("old_string must not be empty"),
            ),
            EditError::IdenticalStrings => ToolError::validation_for(
                "old_string",
                owned("old_string and new_string must be different"),
            ),
            EditError::Tool(inner) => inner,
        }
    }
}

/// An edit request.
#[derive(Debug, Clone, PartialEq, Eq)]
pub struct EditRequest {
    pub file_path: String,
    pub old_string: String,
    pub new_string: String,
    pub replace_all: bool,
}

/// Runtime settings for edit requests (reserved for future use).
#[derive(Debug, Clone, Default, PartialEq, Eq)]
pub struct EditSettings {}

impl EditSettings {
    /// Creates default edit settings.
    pub fn new() -> (s: Self)
        ensures
            s == (EditSettings {}),
    {
        EditSettings {  }
    }
}

/// The new content and the number of replacements made.
#[derive(Debug, Clone, PartialEq, Eq)]
pub struct EditOutcome {
    pub new_content: String,
    pub replacements: usize,
}

/// `s` with the `plen` characters at `i` replaced by `r`.
pub open spec fn splice(s: Seq<char>, i: int, plen: int, r: Seq<char>) -> Seq<char> {
    s.take(i) + r + s.skip(i + plen)
}

/// `p` occurs in `s` at `i` and nowhere else, overlapping occurrences included.
pub open spec fn unique_occurrence(s: Seq<char>, p: Seq<char>, i: int) -> bool {
    occurs_at(s, p, i) && forall|j: int| j != i ==> !#[trigger] occurs_at(s, p, j)
}

/// `i` is the leftmost occurrence of `p` in `s`.
pub open spec fn first_occurrence(s: Seq<char>, p: Seq<char>, i: int) -> bool {
    occurs_at(s, p, i) && forall|j: int| 0 <= j < i ==> !#[trigger] occurs_at(s, p, j)
}

/// Left-to-right replacement of every non-overlapping occurrence of `p` by `r`
/// (`str::replace`, `str::match_indices`).
pub open spec fn replace_all_spec(s: Seq<char>, p: Seq<char>, r: Seq<char>) -> Seq<char>
    decreases s.len(),
{
    if p.len() == 0 || s.len() == 0 {
        s
    } else if occurs_at(s, p, 0) {
        r + replace_all_spec(s.skip(p.len() as int), p, r)
    } else {
        seq![s[0]] + replace_all_spec(s.skip(1), p, r)
    }
}

/// The number of non-overlapping occurrences of `p` in `s`, scanning left to
/// right (`str::matches(..).count()`).
pub open spec fn count_matches(s: Seq<char>, p: Seq<char>) -> nat
    decreases s.len(),
{
    if p.len() == 0 || s.len() == 0 {
        0
    } else if occurs_at(s, p, 0) {
        1 + count_matches(s.skip(p.len() as int), p)
    } else {
        count_matches(s.skip(1), p)
    }
}

/// The single-replacement result: defined when `p` occurs exactly once.
pub open spec fn single_edit(s: Seq<char>, p: Seq<char>, r: Seq<char>) -> Option<Seq<char>> {
    if exists|i: int| unique_occurrence(s, p, i) {
        let i = choose|i: int| unique_occurrence(s, p, i);
        Some(splice(s, i, p.len() as int, r))
    } else {
        None
    }
}

/// What the edit tool computes for `content`: the new content and replacement
/// count, or the error it reports.
pub open spec fn edit_spec(content: Seq<char>, old: Seq<char>, new: Seq<char>, replace_all: bool) -> Result<(Seq<char>, nat), EditError> {
    if old.len() == 0 {
        Err(EditError::EmptyOldString)
    } else if old == new {
        Err(EditError::IdenticalStrings)
    } else if !contains_seq(content, old) {
        Err(EditError::NotFound)
    } else if replace_all {
        Ok((replace_all_spec(content, old, new), count_matches(content, old)))
    } else {
        match single_edit(content, old, new) {
            Some(c) => Ok((c, 1)),
            None => Err(EditError::AmbiguousMatch),
        }
    }
}

proof fn lemma_occurs_skip(s: Seq<char>, p: Seq<char>, i: int, j: int)
    requires
        0 <= i <= s.len(),
        0 <= j,
    ensures
        occurs_at(s.skip(i), p, j) == occurs_at(s, p, i + j),
{
    if occurs_at(s.skip(i), p, j) {
        assert(s.skip(i).subrange(j, j + p.len()) =~= s.subrange(i + j, i + j + p.len()));
    }
    if occurs_at(s, p, i + j) {
        assert(s.skip(i).subrange(j, j + p.len()) =~= s.subrange(i + j, i + j + p.len()));
    }
}

/// Computes the replacement of every non-overlapping occurrence of `old` by
/// `new`, scanning left to right, and the number of replacements.
pub fn replace_all_counted(content: &[char], old: &[char], new: &[char]) -> (r: (String, usize))
    requires
        old@.len() > 0,
    ensures
        r.0@ == replace_all_spec(content@, old@, new@),
        r.1 == count_matches(content@, old@),
{
    let n = content.len();
    let mut out = String::new();
    let mut count: usize = 0;
    let mut i: usize = 0;
    assert(content@.skip(0) == content@);
    while i < n
        invariant
            n == content@.len(),
            old@.len() > 0,
            i <= n,
            count <= i,
            out@ + replace_all_spec(content@.skip(i as int), old@, new@) == replace_all_spec(
                content@,
                old@,
                new@,
            ),
            count + count_matches(content@.skip(i as int), old@) == count_matches(
                content@,
                old@,
            ),
        decreases n - i,
    {
        let ghost rest = content@.skip(i as int);
        proof {
            lemma_occurs_skip(content@, old@, i as int, 0);
        }
        if matches_at(content, old, i) {
            push_chars(&mut out, new);
            proof {
                assert(rest.skip(old@.len() as int) == content@.skip(i + old@.len()));
                assert(out@ + replace_all_spec(rest.skip(old@.len() as int), old@, new@) =~= (
                out@.subrange(0, out@.len() - new@.len()) + replace_all_spec(rest, old@, new@)));
            }
            i = i + old.len();
            count = count + 1;
        } else {
            push_char(&mut out, content[i]);
            proof {
                assert(rest.skip(1) == content@.skip(i + 1));
                assert(rest[0] == content@[i as int]);
                assert(out@ + replace_all_spec(rest.skip(1), old@, new@) =~= (
                out@.subrange(0, out@.len() - 1) + replace_all_spec(rest, old@, new@)));
            }
            i = i + 1;
        }
    }
    assert(content@.skip(n as int).len() == 0);
    (out, count)
}

/// Builds `content[..i] + new + content[i + plen..]`.
pub fn splice_chars(content: &[char], i: usize, plen: usize, new: &[char]) -> (s: String)
    requires
        i + plen <= content@.len(),
    ensures
        s@ == splice(content@, i as int, plen as int, new@),
{
    let mut out = String::new();
    let mut k: usize = 0;
    while k < i
        invariant
            i + plen <= content@.len(),
            k <= i,
            out@ == content@.take(k as int),
        decreases i - k,
    {
        push_char(&mut out, content[k]);
        assert(content@.take(k + 1) == content@.take(k as int).push(content@[k as int]));
        k = k + 1;
    }
    push_chars(&mut out, new);
    let n = content.len();
    let mut m: usize = i + plen;
    while m < content.len()
        invariant
            i + plen <= m <= content@.len(),
            out@ == content@.take(i as int) + new@ + content@.subrange(i + plen, m as int),
        decreases content@.len() - m,
    {
        push_char(&mut out, content[m]);
        assert(content@.subrange(i + plen, m + 1) == content@.subrange(i + plen, m as int).push(
            content@[m as int],
        ));
        m = m + 1;
    }
    assert(content@.subrange(i + plen, content@.len() as int) == content@.skip(i + plen));
    out
}

/// The checks an edit request passes before the file is read: `old_string`
/// must not be empty and must differ from `new_string`.
pub fn check_edit_strings(old_string: &str, new_string: &str) -> (r: Result<(), EditError>)
    ensures
        r == if old_string@.len() == 0 {
            Err::<(), EditError>(EditError::EmptyOldString)
        } else if old_string@ == new_string@ {
            Err::<(), EditError>(EditError::IdenticalStrings)
        } else {
            Ok::<(), EditError>(())
        },
{
    if old_string.is_empty() {
        return Err(EditError::EmptyOldString);
    }
    let o = to_chars(old_string);
    let n = to_chars(new_string);
    if chars_eq(o.as_slice(), n.as_slice()) {
        return Err(EditError::IdenticalStrings);
    }
    Ok(())
}

/// Computes the edited content for a request against the current file content.
///
/// Single-replacement mode succeeds only when `old_string` occurs exactly once,
/// counting overlapping occurrences (so `"aa"` in `"aaa"` is ambiguous).
pub fn edit_content(content: &str, old_string: &str, new_string: &str, replace_all: bool) -> (r:
    Result<EditOutcome, EditError>)
    ensures
        match edit_spec(content@, old_string@, new_string@, replace_all) {
            Ok((c, n)) => r matches Ok(o) && o.new_content@ == c && o.replacements == n,
            Err(e) => r == Err::<EditOutcome, EditError>(e),
        },
{
    let c = to_chars(content);
    let o = to_chars(old_string);
    let nw = to_chars(new_string);
    if o.len() == 0 {
        return Err(EditError::EmptyOldString);
    }
    if chars_eq(o.as_slice(), nw.as_slice()) {
        return Err(EditError::IdenticalStrings);
    }
    let first = find_from(c.as_slice(), o.as_slice(), 0);
    match first {
        None => {
            return Err(EditError::NotFound);
        },
        Some(idx) => {
            if replace_all {
                let (s, count) = replace_all_counted(c.as_slice(), o.as_slice(), nw.as_slice());
                return Ok(EditOutcome { new_content: s, replacements: count });
            }
            let n = c.len();
            assert(idx < n);
            let second = find_from(c.as_slice(), o.as_slice(), idx + 1);
            match second {
                Some(j) => {
                    proof {
                        assert(!unique_occurrence(c@, o@, idx as int));
                        assert forall|i: int| !unique_occurrence(c@, o@, i) by {
                            if i != idx as int {
                                assert(occurs_at(c@, o@, idx as int));
                            }
                        }
                    }
                    return Err(EditError::AmbiguousMatch);
                },
                None => {
                    proof {
                        assert(unique_occurrence(c@, o@, idx as int));
                        let k = choose|i: int| unique_occurrence(c@, o@, i);
                        assert(k == idx as int);
                    }
                    let s = splice_chars(c.as_slice(), idx, o.len(), nw.as_slice());
                    return Ok(EditOutcome { new_content: s, replacements: 1 });
                },
            }
        },
    }
}

/// The success message reported after an edit.
pub open spec fn edit_message_spec(count: nat) -> Seq<char> {
    "Successfully replaced "@ + decimal(count) + " occurrence(s)"@
}

/// Renders the success message for `count` replacements.
pub fn edit_message(count: usize) -> (s: String)
    ensures
        s@ == edit_message_spec(count as nat),
{
    let mut s = owned("Successfully replaced ");
    push_decimal(&mut s, count as u64);
    push_str(&mut s, " occurrence(s)");
    s
}

/// A single replacement can be undone: if replacing `old` by `new` succeeds and
/// then replacing `new` by `old` in the result succeeds too, the original
/// content comes back.
pub proof fn lemma_single_edit_undo(content: Seq<char>, old: Seq<char>, new: Seq<char>)
    requires
        old.len() > 0,
        new.len() > 0,
        single_edit(content, old, new) is Some,
        single_edit(single_edit(content, old, new)->0, new, old) is Some,
    ensures
        single_edit(single_edit(content, old, new)->0, new, old)->0 == content,
{
    let i = choose|i: int| unique_occurrence(content, old, i);
    let c2 = splice(content, i, old.len() as int, new);
    assert(single_edit(content, old, new)->0 == c2);
    assert(c2.subrange(i, i + new.len()) =~= new);
    assert(occurs_at(c2, new, i));
    let j = choose|j: int| unique_occurrence(c2, new, j);
    assert(j == i);
    assert(splice(c2, i, new.len() as int, old) =~= content);
}

proof fn lemma_count_positive(s: Seq<char>, p: Seq<char>, i: int)
    requires
        p.len() > 0,
        occurs_at(s, p, i),
    ensures
        count_matches(s, p) >= 1,
    decreases s.len(),
{
    if !occurs_at(s, p, 0) {
        lemma_occurs_skip(s, p, 1, i - 1);
        lemma_count_positive(s.skip(1), p, i - 1);
    }
}

/// An edit is refused with `NotFound` whenever `old` is non-empty, differs
/// from `new` and appears nowhere in the content, in both replacement modes.
pub proof fn lemma_edit_refuses_absent_text(content: Seq<char>, old: Seq<char>, new: Seq<char>, replace_all: bool)
    requires
        old.len() > 0,
        old != new,
        forall|i: int| 0 <= i && i + old.len() <= content.len() ==> #[trigger] content.subrange(i, i + old.len()) != old,
    ensures
        edit_spec(content, old, new, replace_all) == Err::<(Seq<char>, nat), EditError>(EditError::NotFound),
{
    assert(!contains_seq(content, old));
}

/// A successful edit replaced at least one occurrence of `old`, which does
/// occur in the content; a single replacement reports exactly one.
pub proof fn lemma_edit_success_replaces_something(content: Seq<char>, old: Seq<char>, new: Seq<char>, replace_all: bool)
    ensures
        edit_spec(content, old, new, replace_all) matches Ok((c, n)) ==> {
            &&& n >= 1
            &&& exists|i: int| 0 <= i && i + old.len() <= content.len() && #[trigger] content.subrange(i, i + old.len()) == old
            &&& !replace_all ==> n == 1
        },
{
    if edit_spec(content, old, new, replace_all) is Ok {
        let i = choose|i: int| occurs_at(content, old, i);
        if replace_all {
            lemma_count_positive(content, old, i);
        }
    }
}

} // verus!
