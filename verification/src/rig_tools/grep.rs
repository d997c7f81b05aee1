//! Content search: argument checks, interpretation of ripgrep's file list and
//! rendering of the result. Running ripgrep is the caller's part.
use crate::rig_tools::error::{is_absolute_path, not_absolute_message, validate_absolute_path, ToolError};
use crate::rig_tools::read::newline_pos;
use crate::text::{
    decimal, from_chars, join, owned, push_decimal, push_str, to_chars, trim, trim_bounds, views,
};
use crate::utf8::{from_utf8, utf8_text};
use vstd::prelude::*;
use vstd::slice::slice_subrange;
use vstd::utf8::{decode_utf8, valid_utf8};

verus! {

/// Default maximum number of files.
pub const DEFAULT_LIMIT: usize = 100;

/// Largest accepted limit; larger requests are capped.
pub const MAX_LIMIT: usize = 2000;

/// The default file limit.
pub fn default_limit() -> (r: Option<usize>)
    ensures
        r == Some(DEFAULT_LIMIT),
{
    Some(DEFAULT_LIMIT)
}

/// Arguments for the grep tool.
#[derive(Debug, Clone, PartialEq, Eq)]
pub struct GrepArgs {
    /// Regex pattern to search for in file contents.
    pub pattern: String,
    /// Absolute directory path to search in.
    pub path: String,
    /// Optional file glob filter (e.g., "*.rs", "*.{ts,tsx}").
    pub glob_filter: Option<String>,
    /// Maximum number of files to return.
    pub limit: Option<usize>,
}

/// Output from the grep tool.
#[derive(Debug, Clone, PartialEq, Eq)]
pub struct GrepOutput {
    /// List of file paths containing matches.
    pub files: Vec<String>,
    /// Whether results were truncated due to limit.
    pub truncated: bool,
}

/// Tool for searching file contents using regex patterns.
#[derive(Debug, Clone, Default, PartialEq, Eq)]
pub struct GrepTool {}

/// The pattern, glob filter and limit a valid request searches with.
#[derive(Debug, Clone, PartialEq, Eq)]
pub struct GrepPlan {
    pub pattern: String,
    pub glob_filter: Option<String>,
    pub limit: usize,
}

/// What `regex::Regex::new` reports for a pattern: `None` when it compiles,
/// otherwise the rendered error.
pub uninterp spec fn regex_error(pattern: Seq<char>) -> Option<Seq<char>>;

/// Compiles a regex to check it (`regex::Regex::new`).
///
/// Trusted: the outcome is the named result for this pattern; nothing more is
/// claimed about which patterns compile.
#[verifier::external_body]
fn check_regex(pattern: &str) -> (r: Option<String>)
    ensures
        r is None <==> regex_error(pattern@) is None,
        r matches Some(m) ==> regex_error(pattern@) == Some(m@),
{
    match regex::Regex::new(pattern) {
        Ok(_) => None,
        Err(e) => Some(e.to_string()),
    }
}

/// The limit a request asks for, capped at [`MAX_LIMIT`].
pub open spec fn effective_limit(limit: Option<usize>) -> nat {
    let l = match limit {
        Some(l) => l as nat,
        None => DEFAULT_LIMIT as nat,
    };
    if l <= MAX_LIMIT {
        l
    } else {
        MAX_LIMIT as nat
    }
}

/// Validates the arguments and derives what to search with. Checks run in
/// order: absolute path, non-blank pattern, compiling regex, non-zero limit.
pub fn prepare_grep(args: &GrepArgs) -> (r: Result<GrepPlan, ToolError>)
    ensures
        !is_absolute_path(args.path@) ==> (r matches Err(ToolError::InvalidPath(m)) && m@
            == not_absolute_message(args.path@)),
        is_absolute_path(args.path@) && trim(args.pattern@).len() == 0 ==> (r matches Err(
            ToolError::InvalidPattern(m),
        ) && m@ == "pattern must not be empty"@),
        is_absolute_path(args.path@) && trim(args.pattern@).len() > 0 && regex_error(
            trim(args.pattern@),
        ) is Some ==> (r matches Err(ToolError::Regex(m)) && Some(m@) == regex_error(
            trim(args.pattern@),
        )),
        is_absolute_path(args.path@) && trim(args.pattern@).len() > 0 && regex_error(
            trim(args.pattern@),
        ) is None && effective_limit(args.limit) == 0 ==> (r matches Err(
            ToolError::InvalidPattern(m),
        ) && m@ == "limit must be greater than zero"@),
        r matches Ok(p) ==> {
            &&& p.pattern@ == trim(args.pattern@)
            &&& p.limit == effective_limit(args.limit)
            &&& p.limit > 0
            &&& regex_error(trim(args.pattern@)) is None
            &&& is_absolute_path(args.path@)
            &&& match args.glob_filter {
                None => p.glob_filter is None,
                Some(a) => if trim(a@).len() == 0 {
                    p.glob_filter is None
                } else {
                    p.glob_filter matches Some(i) && i@ == trim(a@)
                },
            }
        },
        is_absolute_path(args.path@) && trim(args.pattern@).len() > 0 && regex_error(
            trim(args.pattern@),
        ) is None && effective_limit(args.limit) > 0 ==> r is Ok,
{
    validate_absolute_path(args.path.as_str())?;
    let pattern = crate::text::trim_string(args.pattern.as_str());
    if to_chars(pattern.as_str()).len() == 0 {
        return Err(ToolError::InvalidPattern(owned("pattern must not be empty")));
    }
    if let Some(m) = check_regex(pattern.as_str()) {
        return Err(ToolError::Regex(m));
    }
    let requested = match args.limit {
        Some(l) => l,
        None => DEFAULT_LIMIT,
    };
    let limit = if requested <= MAX_LIMIT {
        requested
    } else {
        MAX_LIMIT
    };
    if limit == 0 {
        return Err(ToolError::InvalidPattern(owned("limit must be greater than zero")));
    }
    let glob_filter = match &args.glob_filter {
        Some(s) => {
            let t = crate::text::trim_string(s.as_str());
            if to_chars(t.as_str()).len() == 0 {
                None
            } else {
                Some(t)
            }
        },
        None => None,
    };
    Ok(GrepPlan { pattern, glob_filter, limit })
}

/// The pieces of `b` between `\n` bytes, as `slice::split` yields them
/// (an empty input and a trailing `\n` each give one empty piece).
pub open spec fn split_pieces(b: Seq<u8>) -> Seq<Seq<u8>>
    decreases b.len(),
{
    let k = newline_pos(b) as int;
    if k < b.len() {
        seq![b.take(k)] + split_pieces(b.skip(k + 1))
    } else {
        seq![b]
    }
}

/// The decoded non-empty, valid UTF-8 pieces, in order.
pub open spec fn decoded_lines(pieces: Seq<Seq<u8>>) -> Seq<Seq<char>>
    decreases pieces.len(),
{
    if pieces.len() == 0 {
        Seq::empty()
    } else {
        let prev = decoded_lines(pieces.drop_last());
        let l = pieces.last();
        if l.len() > 0 && valid_utf8(l) {
            prev.push(decode_utf8(l))
        } else {
            prev
        }
    }
}

/// The file paths in ripgrep's output.
pub open spec fn rg_paths(stdout: Seq<u8>) -> Seq<Seq<char>> {
    decoded_lines(split_pieces(stdout))
}

proof fn lemma_decoded_lines_append(a: Seq<Seq<u8>>, b: Seq<Seq<u8>>)
    ensures
        decoded_lines(a + b) == decoded_lines(a) + decoded_lines(b),
    decreases b.len(),
{
    if b.len() == 0 {
        assert(a + b == a);
    } else {
        assert((a + b).drop_last() == a + b.drop_last());
        assert((a + b).last() == b.last());
        lemma_decoded_lines_append(a, b.drop_last());
    }
}

proof fn lemma_newline_pos_at(b: Seq<u8>, q: int)
    requires
        0 <= q <= b.len(),
        forall|k: int| 0 <= k < q ==> b[k] != 10u8,
        q == b.len() || b[q] == 10u8,
    ensures
        newline_pos(b) == q,
    decreases q,
{
    if q > 0 {
        assert forall|k: int| 0 <= k < q - 1 implies b.drop_first()[k] != 10u8 by {
            assert(b.drop_first()[k] == b[k + 1]);
        }
        lemma_newline_pos_at(b.drop_first(), q - 1);
    }
}

/// Parses ripgrep's newline-separated file list: empty and non-UTF-8 lines
/// are skipped and at most `limit` paths are kept; the flag tells whether
/// more were listed.
pub fn parse_results(stdout: &[u8], limit: usize) -> (r: (Vec<String>, bool))
    ensures
        rg_paths(stdout@).len() <= limit ==> views(r.0@) == rg_paths(stdout@) && !r.1,
        rg_paths(stdout@).len() > limit ==> views(r.0@) == rg_paths(stdout@).take(limit as int)
            && r.1,
{
    let n = stdout.len();
    let mut results: Vec<String> = Vec::new();
    let mut truncated = false;
    let mut p: usize = 0;
    let mut more = true;
    let ghost mut done: Seq<Seq<u8>> = Seq::empty();
    assert(stdout@.skip(0) == stdout@);
    while more && !truncated
        invariant
            n == stdout@.len(),
            more ==> p <= n,
            more && !truncated ==> split_pieces(stdout@) == done + split_pieces(stdout@.skip(p as int)),
            !more ==> split_pieces(stdout@) == done,
            !truncated ==> views(results@) == decoded_lines(done),
            !truncated ==> results@.len() <= limit,
            truncated ==> views(results@) == decoded_lines(done).take(limit as int),
            truncated ==> decoded_lines(done).len() > limit,
            truncated ==> split_pieces(stdout@).len() >= done.len() && split_pieces(stdout@).take(
                done.len() as int,
            ) == done,
        decreases n + 1 - p, if more && !truncated { 1int } else { 0int },
    {
        let mut q = p;
        while q < n && stdout[q] != 10u8
            invariant
                n == stdout@.len(),
                p <= q <= n,
                forall|k: int| p <= k < q ==> stdout@[k] != 10u8,
            decreases n - q,
        {
            q = q + 1;
        }
        let ghost rest = stdout@.skip(p as int);
        proof {
            assert forall|k: int| 0 <= k < q - p implies rest[k] != 10u8 by {
                assert(rest[k] == stdout@[p + k]);
            }
            lemma_newline_pos_at(rest, q - p);
        }
        let piece = slice_subrange(stdout, p, q);
        let ghost l = piece@;
        proof {
            if q < n {
                assert(rest.take(q - p) == l);
                assert(rest.skip(q - p + 1) == stdout@.skip(q + 1));
                assert(split_pieces(rest) == seq![l] + split_pieces(stdout@.skip(q + 1)));
                assert(done + split_pieces(rest) == done.push(l) + split_pieces(stdout@.skip(q + 1)));
            } else {
                assert(rest == l);
                assert(split_pieces(rest) == seq![l]);
                assert(done + split_pieces(rest) == done.push(l));
            }
            assert(done.push(l).drop_last() == done);
        }
        let ghost before = results@;
        if piece.len() > 0 {
            match from_utf8(piece) {
                Some(text) => {
                    if results.len() >= limit {
                        truncated = true;
                        proof {
                            assert(decoded_lines(done.push(l)) == decoded_lines(done).push(
                                decode_utf8(l),
                            ));
                            assert(decoded_lines(done.push(l)).take(limit as int) == decoded_lines(
                                done,
                            ));
                        }
                    } else {
                        results.push(text);
                        proof {
                            assert(views(results@) =~= views(before).push(text@));
                        }
                    }
                },
                None => {},
            }
        }
        proof {
            let all = split_pieces(stdout@);
            if truncated {
                if q < n {
                    assert(all.take(done.len() + 1int) == done.push(l));
                } else {
                    assert(all.take(done.len() + 1int) == done.push(l));
                }
            }
            done = done.push(l);
        }
        if !truncated {
            if q < n {
                p = q + 1;
            } else {
                more = false;
            }
        }
    }
    proof {
        let all = split_pieces(stdout@);
        if truncated {
            lemma_decoded_lines_append(done, all.skip(done.len() as int));
            assert(done + all.skip(done.len() as int) == all);
            assert(decoded_lines(all).take(limit as int) == decoded_lines(done).take(limit as int));
        }
    }
    (results, truncated)
}

/// The text the tool returns for a search result.
pub open spec fn grep_result_text(files: Seq<Seq<char>>, truncated: bool, limit: nat) -> Seq<char> {
    if files.len() == 0 {
        "No matches found."@
    } else if truncated {
        join(files, "\n"@) + "\n\n(Results truncated at "@ + decimal(limit) + " files)"@
    } else {
        join(files, "\n"@)
    }
}

/// Renders a search result.
pub fn render_grep_result(output: &GrepOutput, limit: usize) -> (s: String)
    ensures
        s@ == grep_result_text(views(output.files@), output.truncated, limit as nat),
{
    if output.files.len() == 0 {
        return owned("No matches found.");
    }
    let mut s = crate::text::join_strings(&output.files, "\n");
    if output.truncated {
        push_str(&mut s, "\n\n(Results truncated at ");
        push_decimal(&mut s, limit as u64);
        push_str(&mut s, " files)");
    }
    s
}

/// Interprets ripgrep's exit status: 0 lists matching files, 1 means no
/// match, anything else is a failure reported with its stderr.
pub fn interpret_rg_output(code: Option<i32>, stdout: &[u8], stderr: &[u8], limit: usize) -> (r:
    Result<GrepOutput, ToolError>)
    ensures
        code == Some(0i32) ==> (r matches Ok(o) && (rg_paths(stdout@).len() <= limit ==> views(
            o.files@,
        ) == rg_paths(stdout@) && !o.truncated) && (rg_paths(stdout@).len() > limit ==> views(
            o.files@,
        ) == rg_paths(stdout@).take(limit as int) && o.truncated)),
        code == Some(1i32) ==> (r matches Ok(o) && o.files@.len() == 0 && !o.truncated),
        code != Some(0i32) && code != Some(1i32) ==> (r matches Err(ToolError::Execution(m))
            && m@ == "rg failed: "@ + utf8_text(stderr@)),
{
    match code {
        Some(0) => {
            let (files, truncated) = parse_results(stdout, limit);
            Ok(GrepOutput { files, truncated })
        },
        Some(1) => Ok(GrepOutput { files: Vec::new(), truncated: false }),
        _ => {
            let text = crate::utf8::from_utf8_lossy(stderr);
            let mut m = owned("rg failed: ");
            push_str(&mut m, text.as_str());
            Err(ToolError::Execution(m))
        },
    }
}

} // verus!
