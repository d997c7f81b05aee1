//! Glob search settings and the shaping of its results.
//!
//! Walking the directory tree is the caller's part; this module orders the
//! matched files newest first, applies the result limit and records whether
//! the walk was partial.
use crate::core_tools::error::ToolError;
use crate::text::{owned, to_chars};
use vstd::prelude::*;

verus! {

broadcast use vstd::seq_lib::group_to_multiset_ensures;

/// Standard maximum number of files returned.
pub const MAX_RESULTS: usize = 1000;

/// Smallest accepted result limit.
pub const MIN_LIMIT: usize = 1;

/// A glob request.
#[derive(Debug, Clone, PartialEq, Eq)]
pub struct GlobRequest {
    /// Glob pattern to match against file paths (e.g. `"**/*.rs"`).
    pub pattern: String,
    /// Absolute or relative directory path to search.
    pub path: String,
}

/// Runtime settings applied to glob requests.
#[derive(Debug, Clone, PartialEq, Eq)]
pub struct GlobSettings {
    limit: usize,
}

impl GlobSettings {
    /// The configured result limit.
    pub closed spec fn spec_limit(&self) -> nat {
        self.limit as nat
    }

    /// Creates valid glob settings with the standard result limit.
    pub fn new() -> (s: Self)
        ensures
            s.spec_limit() == MAX_RESULTS,
    {
        GlobSettings { limit: MAX_RESULTS }
    }

    /// Updates the maximum number of files returned; limits below
    /// [`MIN_LIMIT`] are refused.
    pub fn with_limit(self, limit: usize) -> (r: Result<Self, ToolError>)
        ensures
            limit < MIN_LIMIT ==> (r matches Err(ToolError::Validation { field: Some(f), message: m })
                && f@ == "limit"@ && m@ == "limit must be >= 1"@),
            limit >= MIN_LIMIT ==> (r matches Ok(s) && s.spec_limit() == limit),
    {
        if limit < MIN_LIMIT {
            return Err(ToolError::validation_for("limit", owned("limit must be >= 1")));
        }
        Ok(GlobSettings { limit })
    }

    /// Returns the maximum number of files to return.
    pub fn limit(&self) -> (l: usize)
        ensures
            l == self.spec_limit(),
    {
        self.limit
    }
}

impl Default for GlobSettings {
    /// The standard settings, as [`GlobSettings::new`] gives them.
    fn default() -> (s: Self)
        ensures
            s.spec_limit() == MAX_RESULTS,
    {
        GlobSettings { limit: MAX_RESULTS }
    }
}

/// Output from glob file matching.
#[derive(Debug, Clone, PartialEq, Eq)]
pub struct GlobOutput {
    /// Matched file paths relative to the search directory, newest first.
    pub files: Vec<String>,
    /// Whether results were truncated due to limit.
    pub truncated: bool,
    /// Whether one or more paths could not be traversed or processed.
    pub partial: bool,
    /// Per-path traversal errors encountered while collecting matches.
    pub errors: Vec<String>,
}

/// A matched file: its relative path with `/` separators and its modification
/// time since the Unix epoch.
#[derive(Debug, Clone, PartialEq, Eq)]
pub struct GlobEntry {
    pub path: String,
    pub mtime_secs: u64,
    pub mtime_nanos: u32,
}

/// A matched file together with its position in the walk.
pub struct SortItem {
    pub entry: GlobEntry,
    pub position: usize,
}

/// Character rank for path ordering: the separator sorts before every other
/// character, so comparing ranks compares paths component by component.
pub open spec fn sep_rank(c: char) -> int {
    if c == '/' {
        -1
    } else {
        (c as u32) as int
    }
}

/// Path order: lexicographic by [`sep_rank`], a proper prefix first. For
/// relative paths without empty components this is the order of their
/// component lists.
pub open spec fn path_lt(a: Seq<char>, b: Seq<char>) -> bool
    decreases a.len(),
{
    if a.len() == 0 {
        b.len() > 0
    } else if b.len() == 0 {
        false
    } else if a[0] != b[0] {
        sep_rank(a[0]) < sep_rank(b[0])
    } else {
        path_lt(a.drop_first(), b.drop_first())
    }
}

/// `a` was modified strictly later than `b`.
pub open spec fn newer(a: GlobEntry, b: GlobEntry) -> bool {
    a.mtime_secs > b.mtime_secs || (a.mtime_secs == b.mtime_secs && a.mtime_nanos > b.mtime_nanos)
}

/// `a` and `b` carry the same modification time.
pub open spec fn same_time(a: GlobEntry, b: GlobEntry) -> bool {
    a.mtime_secs == b.mtime_secs && a.mtime_nanos == b.mtime_nanos
}

/// `a` comes before `b` in the output: newer first; equal times are broken by
/// path when `by_path`, else by walk position.
pub open spec fn item_before(a: SortItem, b: SortItem, by_path: bool) -> bool {
    newer(a.entry, b.entry) || (same_time(a.entry, b.entry) && if by_path {
        path_lt(a.entry.path@, b.entry.path@)
    } else {
        a.position < b.position
    })
}

/// No item comes before one that precedes it.
pub open spec fn sorted_items(s: Seq<SortItem>, by_path: bool) -> bool {
    forall|i: int, j: int| 0 <= i < j < s.len() ==> !item_before(s[j], s[i], by_path)
}

/// The entries paired with their walk positions.
pub open spec fn positioned(entries: Seq<GlobEntry>) -> Seq<SortItem> {
    Seq::new(entries.len(), |i: int| SortItem { entry: entries[i], position: i as usize })
}

/// The paths of a run of items.
pub open spec fn item_paths(s: Seq<SortItem>) -> Seq<Seq<char>> {
    s.map_values(|it: SortItem| it.entry.path@)
}

proof fn lemma_path_lt_asym(a: Seq<char>, b: Seq<char>)
    ensures
        !(path_lt(a, b) && path_lt(b, a)),
    decreases a.len(),
{
    if a.len() > 0 && b.len() > 0 && a[0] == b[0] {
        lemma_path_lt_asym(a.drop_first(), b.drop_first());
    }
}

proof fn lemma_path_lt_trans(a: Seq<char>, b: Seq<char>, c: Seq<char>)
    requires
        path_lt(a, b),
        path_lt(b, c),
    ensures
        path_lt(a, c),
    decreases a.len(),
{
    if a.len() > 0 && b.len() > 0 && c.len() > 0 && a[0] == b[0] && b[0] == c[0] {
        lemma_path_lt_trans(a.drop_first(), b.drop_first(), c.drop_first());
    }
}

proof fn lemma_before_trans(a: SortItem, b: SortItem, c: SortItem, by_path: bool)
    requires
        item_before(a, b, by_path),
        item_before(b, c, by_path),
    ensures
        item_before(a, c, by_path),
{
    if by_path && same_time(a.entry, b.entry) && same_time(b.entry, c.entry) {
        lemma_path_lt_trans(a.entry.path@, b.entry.path@, c.entry.path@);
    }
}

proof fn lemma_before_asym(a: SortItem, b: SortItem, by_path: bool)
    ensures
        !(item_before(a, b, by_path) && item_before(b, a, by_path)),
{
    lemma_path_lt_asym(a.entry.path@, b.entry.path@);
}

/// Whether `a` sorts before `b` by path.
fn path_less(a: &str, b: &str) -> (r: bool)
    ensures
        r == path_lt(a@, b@),
{
    let x = to_chars(a);
    let y = to_chars(b);
    let mut i: usize = 0;
    assert(x@.skip(0) == x@);
    assert(y@.skip(0) == y@);
    while i < x.len() && i < y.len() && x[i] == y[i]
        invariant
            i <= x@.len(),
            i <= y@.len(),
            x@.take(i as int) == y@.take(i as int),
            path_lt(x@, y@) == path_lt(x@.skip(i as int), y@.skip(i as int)),
        decreases x@.len() - i,
    {
        proof {
            assert(x@.skip(i as int).drop_first() == x@.skip(i + 1));
            assert(y@.skip(i as int).drop_first() == y@.skip(i + 1));
            assert(x@.take(i + 1) == x@.take(i as int).push(x@[i as int]));
            assert(y@.take(i + 1) == y@.take(i as int).push(y@[i as int]));
        }
        i = i + 1;
    }
    let ghost xs = x@.skip(i as int);
    let ghost ys = y@.skip(i as int);
    if i == x.len() {
        assert(xs.len() == 0);
        assert(path_lt(xs, ys) == (ys.len() > 0));
        i < y.len()
    } else if i == y.len() {
        assert(ys.len() == 0);
        false
    } else {
        assert(xs[0] == x@[i as int]);
        assert(ys[0] == y@[i as int]);
        let cx = x[i];
        let cy = y[i];
        if cx == '/' {
            true
        } else if cy == '/' {
            false
        } else {
            (cx as u32) < (cy as u32)
        }
    }
}

fn before(a: &SortItem, b: &SortItem, by_path: bool) -> (r: bool)
    ensures
        r == item_before(*a, *b, by_path),
{
    let ea = &a.entry;
    let eb = &b.entry;
    if ea.mtime_secs > eb.mtime_secs || (ea.mtime_secs == eb.mtime_secs && ea.mtime_nanos
        > eb.mtime_nanos) {
        return true;
    }
    if ea.mtime_secs != eb.mtime_secs || ea.mtime_nanos != eb.mtime_nanos {
        return false;
    }
    if by_path {
        path_less(ea.path.as_str(), eb.path.as_str())
    } else {
        a.position < b.position
    }
}

proof fn lemma_insert_multiset(s: Seq<SortItem>, pos: int, x: SortItem)
    requires
        0 <= pos <= s.len(),
    ensures
        s.insert(pos, x).to_multiset() =~= s.to_multiset().insert(x),
{
    let t = s.insert(pos, x);
    assert(t.remove(pos) =~= s);
    assert(t[pos] == x);
    assert(t.to_multiset().remove(x) =~= s.to_multiset());
    assert(t.to_multiset().count(x) > 0) by {
        assert(t.contains(x));
    }
}

proof fn lemma_insert_sorted(old_sorted: Seq<SortItem>, j: int, item: SortItem, by_path: bool)
    requires
        0 <= j <= old_sorted.len(),
        sorted_items(old_sorted, by_path),
        forall|k: int| 0 <= k < j ==> !item_before(item, #[trigger] old_sorted[k], by_path),
        j < old_sorted.len() ==> item_before(item, old_sorted[j], by_path),
    ensures
        sorted_items(old_sorted.insert(j, item), by_path),
{
    let t = old_sorted.insert(j, item);
    old_sorted.insert_ensures(j, item);
    assert forall|a: int, b: int| 0 <= a < b < t.len() implies !item_before(t[b], t[a], by_path) by {
        if a < j && b == j {
        } else if a == j && b > j {
            let sb = old_sorted[b - 1];
            assert(t[b] == sb);
            lemma_before_asym(item, sb, by_path);
            if item_before(sb, item, by_path) {
                lemma_before_trans(sb, item, old_sorted[j], by_path);
            }
        } else if a < j && b > j {
            assert(t[b] == old_sorted[b - 1]);
        } else if a > j {
            assert(t[b] == old_sorted[b - 1]);
            assert(t[a] == old_sorted[a - 1]);
        } else {
        }
    }
}

/// Orders entries newest first, breaking ties by path (`by_path`) or by walk
/// position.
pub fn sort_entries(entries: Vec<GlobEntry>, by_path: bool) -> (s: Vec<SortItem>)
    ensures
        s@.to_multiset() == positioned(entries@).to_multiset(),
        sorted_items(s@, by_path),
{
    let ghost all = positioned(entries@);
    let mut sorted: Vec<SortItem> = Vec::new();
    let mut rest = entries;
    let n = rest.len();
    let mut i: usize = 0;
    let ghost orig = rest@;
    assert(orig.take(n as int) == orig);
    while i < n
        invariant
            n == orig.len(),
            all == positioned(orig),
            i <= n,
            rest@.len() == n - i,
            rest@ == orig.take(n - i),
            sorted@.to_multiset() == all.skip((n - i) as int).to_multiset(),
            sorted_items(sorted@, by_path),
        decreases n - i,
    {
        let e = rest.pop().unwrap();
        let pos_item = n - 1 - i;
        assert(e == orig[pos_item as int]);
        assert(rest@ == orig.take(n - (i + 1)));
        let item = SortItem { entry: e, position: pos_item };
        assert(item == all[pos_item as int]);
        let mut j: usize = 0;
        while j < sorted.len() && !before(&item, &sorted[j], by_path)
            invariant
                j <= sorted@.len(),
                forall|k: int| 0 <= k < j ==> !item_before(item, #[trigger] sorted@[k], by_path),
            decreases sorted@.len() - j,
        {
            j = j + 1;
        }
        let ghost old_sorted = sorted@;
        sorted.insert(j, item);
        proof {
            lemma_insert_multiset(old_sorted, j as int, item);
            assert(all.skip((n - i - 1) as int) =~= all.skip((n - i) as int).insert(0, item));
            lemma_insert_multiset(all.skip((n - i) as int), 0, item);
            lemma_insert_sorted(old_sorted, j as int, item, by_path);
        }
        i = i + 1;
    }
    assert(all.skip(0) == all);
    sorted
}


/// The number of results kept from `n` matches under `limit`.
pub open spec fn kept_count(n: nat, limit: nat) -> nat {
    if n <= limit {
        n
    } else {
        limit
    }
}

/// The paths of the first `count` sorted items.
pub fn first_paths(sorted: &Vec<SortItem>, count: usize) -> (files: Vec<String>)
    requires
        count <= sorted@.len(),
    ensures
        crate::text::views(files@) == item_paths(sorted@).take(count as int),
{
    let mut files: Vec<String> = Vec::new();
    let mut k: usize = 0;
    while k < count
        invariant
            count <= sorted@.len(),
            k <= count,
            crate::text::views(files@) == item_paths(sorted@).take(k as int),
        decreases count - k,
    {
        let ghost before = files@;
        files.push(sorted[k].entry.path.clone());
        proof {
            assert(crate::text::views(files@) =~= crate::text::views(before).push(
                sorted@[k as int].entry.path@,
            ));
            assert(item_paths(sorted@).take(k + 1) =~= item_paths(sorted@).take(k as int).push(
                sorted@[k as int].entry.path@,
            ));
        }
        k = k + 1;
    }
    files
}

/// Shapes the matched files into the glob output: newest first with ties
/// broken by path, at most the configured limit, with the truncation flag and
/// the traversal errors.
pub fn collect_glob_output(entries: Vec<GlobEntry>, errors: Vec<String>, settings: &GlobSettings) -> (o: GlobOutput)
    ensures
        exists|s: Seq<SortItem>|
            s.to_multiset() == positioned(entries@).to_multiset() && sorted_items(s, true)
                && crate::text::views(o.files@) == item_paths(s).take(
                kept_count(entries@.len(), settings.spec_limit()) as int,
            ),
        o.truncated == (entries@.len() > settings.spec_limit()),
        o.partial == (errors@.len() > 0),
        o.errors == errors,
{
    let limit = settings.limit();
    let total = entries.len();
    let truncated = total > limit;
    let sorted = sort_entries(entries, true);
    let count = if total <= limit {
        total
    } else {
        limit
    };
    proof {
        assert(sorted@.len() == sorted@.to_multiset().len());
        assert(positioned(entries@).len() == positioned(entries@).to_multiset().len());
    }
    let files = first_paths(&sorted, count);
    let partial = errors.len() > 0;
    GlobOutput { files, truncated, partial, errors }
}


/// Longest glob pattern accepted, in characters: the matcher for a pattern
/// is built with `aho-corasick` automata whose state count must stay below
/// `i32::MAX`, and a pattern below this length keeps its UTF-8 form below
/// that bound.
pub const MAX_GLOB_PATTERN_CHARS: usize = 0x1000_0000;

/// A compiled glob pattern together with the pattern it was compiled from.
pub struct CompiledGlob {
    pattern: String,
    matcher: globset::GlobSet,
}

#[verifier::external_type_specification]
#[verifier::external_body]
pub struct ExGlobSet(globset::GlobSet);

impl CompiledGlob {
    /// The pattern this glob was compiled from.
    pub closed spec fn pattern(&self) -> Seq<char> {
        self.pattern@
    }
}

/// What `globset` reports when a pattern is parsed with `Glob::new` and built
/// into a set with `GlobSetBuilder::build`: `None` when both succeed,
/// otherwise the rendered error.
pub uninterp spec fn glob_compile_error(pattern: Seq<char>) -> Option<Seq<char>>;

/// Whether the set built from the glob `pattern` matches `path`
/// (`globset::GlobSet::is_match`).
pub uninterp spec fn glob_matches(pattern: Seq<char>, path: Seq<char>) -> bool;

/// Compiles a glob pattern (`globset::Glob::new`, then
/// `GlobSetBuilder::build` on a builder holding that glob; both report
/// failure as an error rather than panicking).
///
/// Trusted: succeeds exactly when the named compile result is `None`, and the
/// matcher keeps the pattern it was compiled from.
#[verifier::external_body]
pub(crate) fn compile_glob(pattern: &str) -> (r: Result<CompiledGlob, String>)
    requires
        pattern@.len() < MAX_GLOB_PATTERN_CHARS,
    ensures
        r is Ok <==> glob_compile_error(pattern@) is None,
        r matches Ok(g) ==> g.pattern() == pattern@,
        r matches Err(m) ==> glob_compile_error(pattern@) == Some(m@),
{
    match globset::Glob::new(pattern) {
        Ok(g) => match globset::GlobSetBuilder::new().add(g).build() {
            Ok(set) => Ok(CompiledGlob { pattern: pattern.to_string(), matcher: set }),
            Err(e) => Err(e.to_string()),
        },
        Err(e) => Err(e.to_string()),
    }
}

/// Matches a path against a compiled glob (`globset::GlobSet::is_match`).
///
/// Trusted: the answer is the named match result for the glob's pattern.
#[verifier::external_body]
pub(crate) fn glob_is_match(g: &CompiledGlob, path: &str) -> (b: bool)
    ensures
        b == glob_matches(g.pattern(), path@),
{
    g.matcher.is_match(path)
}

/// A file met while walking the search directory.
#[derive(Debug, Clone, PartialEq, Eq)]
pub struct WalkedFile {
    /// The entry: relative path with `/` separators and modification time.
    pub entry: GlobEntry,
    /// Whether the path resolver allows this path.
    pub allowed: bool,
}

/// The walked files that match `pattern` and are allowed, in walk order.
pub open spec fn selected(pattern: Seq<char>, walked: Seq<WalkedFile>) -> Seq<GlobEntry>
    decreases walked.len(),
{
    if walked.len() == 0 {
        Seq::empty()
    } else {
        let prev = selected(pattern, walked.drop_last());
        let w = walked.last();
        if w.entry.path@.len() > 0 && glob_matches(pattern, w.entry.path@) && w.allowed {
            prev.push(w.entry)
        } else {
            prev
        }
    }
}

/// Finds the walked files matching the glob pattern and shapes the output.
/// Files with an empty relative path (the search root itself) are skipped.
pub fn glob_walked_files(pattern: &str, walked: Vec<WalkedFile>, errors: Vec<String>, settings: &GlobSettings) -> (r: Result<GlobOutput, ToolError>)
    requires
        pattern@.len() < MAX_GLOB_PATTERN_CHARS,
    ensures
        glob_compile_error(pattern@) matches Some(m) ==> (r matches Err(ToolError::InvalidPattern(e))
            && e@ == m),
        glob_compile_error(pattern@) is None ==> (r matches Ok(o) && {
            let entries = selected(pattern@, walked@);
            &&& exists|s: Seq<SortItem>|
                s.to_multiset() == positioned(entries).to_multiset() && sorted_items(s, true)
                    && crate::text::views(o.files@) == item_paths(s).take(
                    kept_count(entries.len(), settings.spec_limit()) as int,
                )
            &&& o.truncated == (entries.len() > settings.spec_limit())
            &&& o.partial == (errors@.len() > 0)
            &&& o.errors == errors
        }),
{
    let matcher = match compile_glob(pattern) {
        Ok(m) => m,
        Err(e) => return Err(ToolError::InvalidPattern(e)),
    };
    let mut entries: Vec<GlobEntry> = Vec::new();
    let mut i: usize = 0;
    while i < walked.len()
        invariant
            i <= walked@.len(),
            matcher.pattern() == pattern@,
            entries@ == selected(pattern@, walked@.take(i as int)),
        decreases walked@.len() - i,
    {
        let w = &walked[i];
        proof {
            assert(walked@.take(i + 1).drop_last() == walked@.take(i as int));
            assert(walked@.take(i + 1).last() == walked@[i as int]);
        }
        let nonempty = to_chars(w.entry.path.as_str()).len() > 0;
        if nonempty && glob_is_match(&matcher, w.entry.path.as_str()) && w.allowed {
            let e = GlobEntry {
                path: w.entry.path.clone(),
                mtime_secs: w.entry.mtime_secs,
                mtime_nanos: w.entry.mtime_nanos,
            };
            entries.push(e);
        }
        i = i + 1;
    }
    assert(walked@.take(walked@.len() as int) == walked@);
    Ok(collect_glob_output(entries, errors, settings))
}

} // verus!
