//! Rendering the sub-agents a Task call may delegate to.
use crate::core_tools::task::TaskSettings;
use crate::text::{owned, push_char, push_str, to_chars};
use vstd::prelude::*;

verus! {

broadcast use vstd::seq_lib::group_to_multiset_ensures;

/// A sub-agent that can be delegated to.
#[derive(Debug, Clone, PartialEq, Eq)]
pub struct TaskTargetSummary {
    /// The sub-agent's name.
    pub name: String,
    /// What it is for.
    pub description: String,
}

/// String order: lexicographic by character, a proper prefix first (the
/// order of `str`, whose UTF-8 bytes compare as their characters do).
pub open spec fn text_lt(a: Seq<char>, b: Seq<char>) -> bool
    decreases a.len(),
{
    if a.len() == 0 {
        b.len() > 0
    } else if b.len() == 0 {
        false
    } else if a[0] != b[0] {
        (a[0] as u32) < (b[0] as u32)
    } else {
        text_lt(a.drop_first(), b.drop_first())
    }
}

proof fn lemma_text_lt_trans(a: Seq<char>, b: Seq<char>, c: Seq<char>)
    requires
        text_lt(a, b),
        text_lt(b, c),
    ensures
        text_lt(a, c),
    decreases a.len(),
{
    if a.len() > 0 && b.len() > 0 && c.len() > 0 && a[0] == b[0] && b[0] == c[0] {
        lemma_text_lt_trans(a.drop_first(), b.drop_first(), c.drop_first());
    }
}

proof fn lemma_text_lt_irrefl(a: Seq<char>)
    ensures
        !text_lt(a, a),
    decreases a.len(),
{
    if a.len() > 0 {
        lemma_text_lt_irrefl(a.drop_first());
    }
}

/// Compares two strings in `str` order.
fn text_less(a: &str, b: &str) -> (r: bool)
    ensures
        r == text_lt(a@, b@),
{
    let x = to_chars(a);
    let y = to_chars(b);
    let mut i: usize = 0;
    proof {
        assert(x@.skip(0) =~= x@);
        assert(y@.skip(0) =~= y@);
    }
    while i < x.len() && i < y.len() && x[i] == y[i]
        invariant
            i <= x@.len(),
            i <= y@.len(),
            x@ == a@,
            y@ == b@,
            text_lt(a@, b@) == text_lt(x@.skip(i as int), y@.skip(i as int)),
        decreases x@.len() - i,
    {
        proof {
            assert(x@.skip(i as int).drop_first() =~= x@.skip(i + 1));
            assert(y@.skip(i as int).drop_first() =~= y@.skip(i + 1));
        }
        i = i + 1;
    }
    if i == x.len() {
        i < y.len()
    } else if i == y.len() {
        false
    } else {
        assert(x@.skip(i as int)[0] == x@[i as int]);
        assert(y@.skip(i as int)[0] == y@[i as int]);
        (x[i] as u32) < (y[i] as u32)
    }
}

/// The targets are ordered by name.
pub open spec fn sorted_by_name(s: Seq<TaskTargetSummary>) -> bool {
    forall|i: int, j: int| 0 <= i < j < s.len() ==> !text_lt(s[j].name@, s[i].name@)
}

/// The listing lines of the targets, each `- name: description` and a line
/// break.
pub open spec fn target_lines(s: Seq<TaskTargetSummary>) -> Seq<char>
    decreases s.len(),
{
    if s.len() == 0 {
        Seq::empty()
    } else {
        target_lines(s.drop_last()) + "- "@ + s.last().name@ + ": "@ + s.last().description@ + seq!['\n']
    }
}

/// The rendering of targets in a given order.
pub open spec fn targets_text(s: Seq<TaskTargetSummary>) -> Seq<char> {
    if s.len() == 0 {
        "No callable subagents are available."@
    } else {
        "Available subagents:\n"@ + target_lines(s)
    }
}

fn copy_target(t: &TaskTargetSummary) -> (r: TaskTargetSummary)
    ensures
        r.name@ == t.name@,
        r.description@ == t.description@,
{
    TaskTargetSummary { name: t.name.clone(), description: t.description.clone() }
}

/// The name and description of each target.
pub open spec fn target_views(s: Seq<TaskTargetSummary>) -> Seq<(Seq<char>, Seq<char>)> {
    s.map_values(|t: TaskTargetSummary| (t.name@, t.description@))
}

proof fn lemma_insert_views(s: Seq<TaskTargetSummary>, j: int, t: TaskTargetSummary)
    requires
        0 <= j <= s.len(),
    ensures
        target_views(s.insert(j, t)).to_multiset() =~= target_views(s).to_multiset().insert((t.name@, t.description@)),
{
    let v = target_views(s);
    let w = target_views(s.insert(j, t));
    let x = (t.name@, t.description@);
    assert(w =~= v.insert(j, x));
    let u = v.insert(j, x);
    assert(u.remove(j) =~= v);
    assert(u[j] == x);
    assert(u.to_multiset().remove(x) =~= v.to_multiset());
    assert(u.to_multiset().count(x) > 0) by {
        assert(u.contains(x));
    }
}

/// The targets ordered by name; targets with equal names stay in some order.
fn sort_by_name(targets: &Vec<TaskTargetSummary>) -> (r: Vec<TaskTargetSummary>)
    ensures
        sorted_by_name(r@),
        target_views(r@).to_multiset() == target_views(targets@).to_multiset(),
{
    let n = targets.len();
    let mut sorted: Vec<TaskTargetSummary> = Vec::new();
    let mut i: usize = 0;
    while i < n
        invariant
            n == targets@.len(),
            i <= n,
            sorted_by_name(sorted@),
            target_views(sorted@).to_multiset() == target_views(targets@.take(i as int)).to_multiset(),
        decreases n - i,
    {
        let item = copy_target(&targets[i]);
        let mut j: usize = 0;
        while j < sorted.len() && !text_less(item.name.as_str(), sorted[j].name.as_str())
            invariant
                j <= sorted@.len(),
                forall|k: int| 0 <= k < j ==> !text_lt(item.name@, #[trigger] sorted@[k].name@),
            decreases sorted@.len() - j,
        {
            j = j + 1;
        }
        let ghost old_sorted = sorted@;
        proof {
            let t = old_sorted.insert(j as int, item);
            old_sorted.insert_ensures(j as int, item);
            assert forall|a: int, b: int| 0 <= a < b < t.len() implies !text_lt(t[b].name@, t[a].name@) by {
                if b == j {
                    assert(!text_lt(item.name@, old_sorted[a].name@));
                } else if a == j {
                    assert(text_lt(item.name@, old_sorted[j as int].name@));
                    let w = old_sorted[b - 1].name@;
                    if text_lt(w, item.name@) {
                        if b - 1 == j {
                            lemma_text_lt_irrefl(w);
                            lemma_text_lt_trans(w, item.name@, w);
                        } else {
                            assert(!text_lt(w, old_sorted[j as int].name@));
                            lemma_text_lt_trans(w, item.name@, old_sorted[j as int].name@);
                        }
                    }
                } else {
                    let a2 = if a < j { a } else { a - 1 };
                    let b2 = if b < j { b } else { b - 1 };
                    assert(t[a] == old_sorted[a2]);
                    assert(t[b] == old_sorted[b2]);
                }
            }
            lemma_insert_views(old_sorted, j as int, item);
            assert(target_views(targets@.take(i + 1)) =~= target_views(targets@.take(i as int)).push(
                (targets@[i as int].name@, targets@[i as int].description@),
            ));
        }
        sorted.insert(j, item);
        i = i + 1;
    }
    assert(targets@.take(n as int) =~= targets@);
    sorted
}

/// Renders the targets ordered by name, one `- name: description` line each,
/// or a notice when there are none.
pub fn render_task_targets(targets: &Vec<TaskTargetSummary>) -> (s: String)
    ensures
        exists|ordered: Seq<TaskTargetSummary>|
            sorted_by_name(ordered) && target_views(ordered).to_multiset() == target_views(targets@).to_multiset()
                && s@ == targets_text(ordered),
{
    if targets.len() == 0 {
        let s = owned("No callable subagents are available.");
        assert(targets_text(targets@) == s@);
        assert(sorted_by_name(targets@));
        return s;
    }
    let ordered = sort_by_name(targets);
    proof {
        assert(target_views(ordered@).len() == target_views(ordered@).to_multiset().len());
        assert(target_views(targets@).len() == target_views(targets@).to_multiset().len());
    }
    let mut rendered = owned("Available subagents:\n");
    let ghost header = rendered@;
    let mut k: usize = 0;
    while k < ordered.len()
        invariant
            k <= ordered@.len(),
            rendered@ == header + target_lines(ordered@.take(k as int)),
        decreases ordered@.len() - k,
    {
        push_str(&mut rendered, "- ");
        push_str(&mut rendered, ordered[k].name.as_str());
        push_str(&mut rendered, ": ");
        push_str(&mut rendered, ordered[k].description.as_str());
        push_char(&mut rendered, '\n');
        proof {
            let t = ordered@.take(k + 1);
            assert(t.drop_last() =~= ordered@.take(k as int));
            assert(t.last() == ordered@[k as int]);
            assert(rendered@ =~= header + target_lines(t));
        }
        k = k + 1;
    }
    assert(ordered@.take(ordered@.len() as int) =~= ordered@);
    rendered
}

/// The Task tool's description: the tool's fixed introduction `prefix`, a
/// blank line, and the rendered targets.
pub fn task_tool_description(prefix: &str, targets: &Vec<TaskTargetSummary>) -> (s: String)
    ensures
        exists|ordered: Seq<TaskTargetSummary>|
            sorted_by_name(ordered) && target_views(ordered).to_multiset() == target_views(targets@).to_multiset()
                && s@ == prefix@ + "\n\n"@ + targets_text(ordered),
{
    let rendered = render_task_targets(targets);
    let mut s = owned(prefix);
    push_str(&mut s, "\n\n");
    push_str(&mut s, rendered.as_str());
    s
}

/// Whether an agent at `current_depth` gets the Task tool: delegation must
/// still be allowed at that depth and at least one target must be callable.
pub fn task_tool_attached(settings: TaskSettings, current_depth: u8, callable_targets: &Vec<TaskTargetSummary>) -> (b: bool)
    ensures
        b == (current_depth < settings.spec_max_depth() && callable_targets@.len() > 0),
{
    settings.allows_delegation(current_depth) && callable_targets.len() > 0
}

} // verus!
