//! Line-numbered file reading.
//!
//! The file's bytes are split into lines the way `read_until(b'\n')` does,
//! each line loses its `\n` (and a `\r` before it), is decoded, truncated to a
//! maximum length and prefixed with `L{number}: `.
use crate::core_tools::error::ToolOutput;
use crate::rig_tools::error::{validate_absolute_path, ToolError};
use crate::text::{decimal, join, owned, push_char, push_decimal, push_str, to_chars, views};
use crate::utf8::{from_utf8_lossy, utf8_text};
use vstd::prelude::*;
use vstd::slice::slice_subrange;

verus! {

/// Longest line, in characters, returned before truncation.
pub const MAX_LINE_LENGTH: usize = 2000;

/// Default 1-indexed first line.
pub const DEFAULT_OFFSET: usize = 1;

/// Default maximum number of lines.
pub const DEFAULT_LIMIT: usize = 2000;

/// The default first line to read.
pub fn default_offset() -> (r: usize)
    ensures
        r == DEFAULT_OFFSET,
{
    DEFAULT_OFFSET
}

/// The default number of lines to read.
pub fn default_limit() -> (r: usize)
    ensures
        r == DEFAULT_LIMIT,
{
    DEFAULT_LIMIT
}

/// Arguments for the read file tool.
#[derive(Debug, Clone, PartialEq, Eq)]
pub struct ReadArgs {
    /// Absolute path to the file to read.
    pub file_path: String,
    /// 1-indexed line number to start reading from (default: 1).
    pub offset: usize,
    /// Maximum number of lines to return (default: 2000).
    pub limit: usize,
}

/// Tool for reading file contents with line numbers.
#[derive(Debug, Clone, Default, PartialEq, Eq)]
pub struct ReadTool {}

impl ReadTool {
    /// Creates a new read tool instance.
    pub fn new() -> (t: Self)
        ensures
            t == (ReadTool {}),
    {
        ReadTool {  }
    }
}

/// Index of the first `\n` in `b`, or `b.len()` when there is none.
pub open spec fn newline_pos(b: Seq<u8>) -> nat
    decreases b.len(),
{
    if b.len() == 0 {
        0
    } else if b[0] == 10u8 {
        0
    } else {
        1 + newline_pos(b.drop_first())
    }
}

/// A terminated line without its trailing `\r`, if any.
pub open spec fn strip_cr(l: Seq<u8>) -> Seq<u8> {
    if l.len() > 0 && l.last() == 13u8 {
        l.drop_last()
    } else {
        l
    }
}

/// The lines of `b` as `read_until(b'\n')` yields them, without their line
/// terminators. A final `\n` does not start an extra empty line.
pub open spec fn split_lines(b: Seq<u8>) -> Seq<Seq<u8>>
    decreases b.len(),
{
    if b.len() == 0 {
        Seq::empty()
    } else {
        let k = newline_pos(b) as int;
        if k < b.len() {
            seq![strip_cr(b.take(k))] + split_lines(b.skip(k + 1))
        } else {
            seq![b]
        }
    }
}

/// `s` cut to at most `max` characters.
pub open spec fn truncate_chars(s: Seq<char>, max: nat) -> Seq<char> {
    if s.len() <= max {
        s
    } else {
        s.take(max as int)
    }
}

/// One output line: `L{number}: {text}`.
pub open spec fn numbered_line(number: nat, line: Seq<u8>, max: nat) -> Seq<char> {
    "L"@ + decimal(number) + ": "@ + truncate_chars(utf8_text(line), max)
}

/// How many lines are returned from `n` lines starting at 1-indexed `offset`.
pub open spec fn shown_count(n: nat, offset: nat, limit: nat) -> nat {
    if n + 1 <= offset {
        0
    } else if (n + 1 - offset) as nat <= limit {
        (n + 1 - offset) as nat
    } else {
        limit
    }
}

/// The output lines for a read of `lines` with `offset` and `limit`.
pub open spec fn shown_lines(lines: Seq<Seq<u8>>, offset: nat, limit: nat, max: nat) -> Seq<Seq<char>> {
    Seq::new(
        shown_count(lines.len(), offset, limit),
        |k: int| numbered_line((offset + k) as nat, lines[offset - 1 + k], max),
    )
}

proof fn lemma_newline_pos(b: Seq<u8>, q: int)
    requires
        0 <= q <= b.len(),
        forall|k: int| 0 <= k < q ==> b[k] != 10u8,
        q == b.len() || b[q] == 10u8,
    ensures
        newline_pos(b) == q,
    decreases q,
{
    if q > 0 {
        assert forall|k: int| 0 <= k < q - 1 implies b.drop_first()[k] != 10u8 by {
            assert(b.drop_first()[k] == b[k + 1]);
        }
        lemma_newline_pos(b.drop_first(), q - 1);
    }
}

/// A line ended by `\r\n` reads as the bytes before the `\r\n`; a line
/// ended by a lone `\n` reads as the bytes before it. Either way the next
/// line starts right after the `\n`.
pub proof fn lemma_line_terminators(line: Seq<u8>, rest: Seq<u8>)
    requires
        forall|k: int| 0 <= k < line.len() ==> #[trigger] line[k] != 10u8,
    ensures
        split_lines(line + seq![13u8, 10u8] + rest) == seq![line] + split_lines(rest),
        line.len() == 0 || line.last() != 13u8 ==> split_lines(line + seq![10u8] + rest) == seq![line]
            + split_lines(rest),
{
    let b = line + seq![13u8, 10u8] + rest;
    let q = line.len() as int + 1;
    assert forall|k: int| 0 <= k < q implies b[k] != 10u8 by {
        if k < line.len() {
            assert(b[k] == line[k]);
        } else {
            assert(b[k] == 13u8);
        }
    }
    assert(b[q] == 10u8);
    lemma_newline_pos(b, q);
    assert(b.take(q) =~= line.push(13u8));
    assert(line.push(13u8).drop_last() =~= line);
    assert(b.skip(q + 1) =~= rest);
    let c = line + seq![10u8] + rest;
    let p = line.len() as int;
    assert forall|k: int| 0 <= k < p implies c[k] != 10u8 by {
        assert(c[k] == line[k]);
    }
    assert(c[p] == 10u8);
    lemma_newline_pos(c, p);
    assert(c.take(p) =~= line);
    assert(c.skip(p + 1) =~= rest);
}

/// Checks the arguments before the file is opened.
pub fn check_read_args(file_path: &str, offset: usize, limit: usize) -> (r: Result<(), ToolError>)
    ensures
        offset == 0 ==> (r matches Err(ToolError::OutOfBounds(m)) && m@
            == "offset must be >= 1 (1-indexed)"@),
        offset > 0 && limit == 0 ==> (r matches Err(ToolError::OutOfBounds(m)) && m@
            == "limit must be >= 1"@),
        offset > 0 && limit > 0 && crate::rig_tools::error::is_absolute_path(file_path@) ==> r is Ok,
        offset > 0 && limit > 0 && !crate::rig_tools::error::is_absolute_path(file_path@) ==> (
        r matches Err(ToolError::InvalidPath(m)) && m@
            == crate::rig_tools::error::not_absolute_message(file_path@)),
{
    if offset == 0 {
        return Err(ToolError::OutOfBounds(owned("offset must be >= 1 (1-indexed)")));
    }
    if limit == 0 {
        return Err(ToolError::OutOfBounds(owned("limit must be >= 1")));
    }
    validate_absolute_path(file_path)
}

/// `s` cut to at most `max` characters, as a new string.
pub fn truncate_line(s: &str, max: usize) -> (r: (String, bool))
    ensures
        r.0@ == truncate_chars(s@, max as nat),
        r.1 == (s@.len() > max),
{
    let v = to_chars(s);
    if v.len() <= max {
        (crate::text::from_chars(v.as_slice()), false)
    } else {
        let head = slice_subrange(v.as_slice(), 0, max);
        proof {
            assert(v@.subrange(0, max as int) == v@.take(max as int));
        }
        (crate::text::from_chars(head), true)
    }
}

/// The message for an offset past the end of the file.
pub open spec fn offset_past_end_message(offset: nat, lines: nat) -> Seq<char> {
    "offset "@ + decimal(offset) + " exceeds file length of "@ + decimal(lines) + " lines"@
}

proof fn lemma_shown_step(done: Seq<Seq<u8>>, l: Seq<u8>, offset: nat, limit: nat, max: nat)
    requires
        offset >= 1,
    ensures
        shown_count(done.len(), offset, limit) < limit && done.len() + 1 >= offset ==>
            shown_lines(done.push(l), offset, limit, max) == shown_lines(done, offset, limit, max).push(
                numbered_line(done.len() + 1, l, max),
            ),
        !(shown_count(done.len(), offset, limit) < limit && done.len() + 1 >= offset) ==>
            shown_lines(done.push(l), offset, limit, max) == shown_lines(done, offset, limit, max),
{
    let a = shown_lines(done.push(l), offset, limit, max);
    let b = shown_lines(done, offset, limit, max);
    if shown_count(done.len(), offset, limit) < limit && done.len() + 1 >= offset {
        assert(a =~= b.push(numbered_line(done.len() + 1, l, max)));
    } else {
        assert(a =~= b);
    }
}

/// Formats the bytes of a file as numbered lines, starting at 1-indexed
/// `offset` and returning at most `limit` lines.
pub fn format_read_output(bytes: &[u8], offset: usize, limit: usize) -> (r: Result<ToolOutput, ToolError>)
    ensures
        offset == 0 ==> (r matches Err(ToolError::OutOfBounds(m)) && m@
            == "offset must be >= 1 (1-indexed)"@),
        offset > 0 && limit == 0 ==> (r matches Err(ToolError::OutOfBounds(m)) && m@
            == "limit must be >= 1"@),
        offset > 0 && limit > 0 && split_lines(bytes@).len() < offset ==> (r matches Err(
            ToolError::OutOfBounds(m),
        ) && m@ == offset_past_end_message(offset as nat, split_lines(bytes@).len())),
        offset > 0 && limit > 0 && split_lines(bytes@).len() >= offset ==> (r matches Ok(o)
            && o.content@ == join(
            shown_lines(split_lines(bytes@), offset as nat, limit as nat, MAX_LINE_LENGTH as nat),
            "\n"@,
        ) && !o.truncated),
{
    if offset == 0 {
        return Err(ToolError::OutOfBounds(owned("offset must be >= 1 (1-indexed)")));
    }
    if limit == 0 {
        return Err(ToolError::OutOfBounds(owned("limit must be >= 1")));
    }
    let n = bytes.len();
    let mut p: usize = 0;
    let mut line_number: usize = 0;
    let mut collected: Vec<String> = Vec::new();
    let ghost mut done: Seq<Seq<u8>> = Seq::empty();
    assert(bytes@.skip(0) == bytes@);
    while p < n
        invariant
            n == bytes@.len(),
            offset >= 1,
            p <= n,
            line_number <= p,
            line_number == done.len(),
            split_lines(bytes@) == done + split_lines(bytes@.skip(p as int)),
            views(collected@) == shown_lines(done, offset as nat, limit as nat, MAX_LINE_LENGTH as nat),
            collected@.len() == shown_count(done.len(), offset as nat, limit as nat),
        decreases n - p,
    {
        let mut q = p;
        while q < n && bytes[q] != 10u8
            invariant
                n == bytes@.len(),
                p <= q <= n,
                forall|k: int| p <= k < q ==> bytes@[k] != 10u8,
            decreases n - q,
        {
            q = q + 1;
        }
        let ghost rest = bytes@.skip(p as int);
        proof {
            assert forall|k: int| 0 <= k < q - p implies rest[k] != 10u8 by {
                assert(rest[k] == bytes@[p + k]);
            }
            lemma_newline_pos(rest, q - p);
        }
        let end: usize;
        let next: usize;
        if q < n {
            if q > p && bytes[q - 1] == 13u8 {
                end = q - 1;
            } else {
                end = q;
            }
            next = q + 1;
            proof {
                assert(rest.take(q - p) == bytes@.subrange(p as int, q as int));
                assert(rest.skip(q - p + 1) == bytes@.skip(q + 1));
                assert(strip_cr(rest.take(q - p)) == bytes@.subrange(p as int, end as int));
            }
        } else {
            end = n;
            next = n;
            proof {
                assert(rest == bytes@.subrange(p as int, n as int));
                assert(bytes@.skip(n as int) == Seq::<u8>::empty());
                assert(split_lines(bytes@.skip(n as int)) == Seq::<Seq<u8>>::empty());
            }
        }
        let line = slice_subrange(bytes, p, end);
        let ghost l = line@;
        proof {
            assert(split_lines(rest) == seq![l] + split_lines(bytes@.skip(next as int)));
            assert(done + split_lines(rest) == done.push(l) + split_lines(bytes@.skip(next as int)));
            lemma_shown_step(done, l, offset as nat, limit as nat, MAX_LINE_LENGTH as nat);
        }
        if line_number + 1 >= offset && collected.len() < limit {
            let text = from_utf8_lossy(line);
            let (shown, _) = truncate_line(text.as_str(), MAX_LINE_LENGTH);
            let mut entry = owned("L");
            push_decimal(&mut entry, (line_number + 1) as u64);
            push_str(&mut entry, ": ");
            push_str(&mut entry, shown.as_str());
            let ghost before = collected@;
            collected.push(entry);
            proof {
                assert(views(collected@) =~= views(before).push(entry@));
            }
        }
        proof {
            done = done.push(l);
        }
        line_number = line_number + 1;
        p = next;
    }
    proof {
        assert(bytes@.skip(n as int) == Seq::<u8>::empty());
        assert(done + Seq::<Seq<u8>>::empty() == done);
    }
    if line_number < offset {
        let mut m = owned("offset ");
        push_decimal(&mut m, offset as u64);
        push_str(&mut m, " exceeds file length of ");
        push_decimal(&mut m, line_number as u64);
        push_str(&mut m, " lines");
        return Err(ToolError::OutOfBounds(m));
    }
    Ok(ToolOutput::new(crate::text::join_strings(&collected, "\n")))
}

} // verus!
