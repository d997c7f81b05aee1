//! Choosing the workspace root: the closest directory, from the working
//! directory upwards, that holds a `.git` entry, else the working directory.
//!
//! Listing the ancestors and checking for `.git` are the caller's part.
use vstd::prelude::*;

verus! {

/// The position of the first ancestor marked as holding `.git`.
pub open spec fn first_marked(marks: Seq<bool>) -> Option<int>
    decreases marks.len(),
{
    if marks.len() == 0 {
        None
    } else {
        match first_marked(marks.drop_last()) {
            Some(i) => Some(i),
            None => if marks.last() {
                Some(marks.len() - 1)
            } else {
                None
            },
        }
    }
}

proof fn lemma_first_marked_extends(s: Seq<bool>, k: int)
    requires
        0 <= k <= s.len(),
        first_marked(s.take(k)) is Some,
    ensures
        first_marked(s) == first_marked(s.take(k)),
    decreases s.len(),
{
    if k == s.len() {
        assert(s.take(k) =~= s);
    } else {
        assert(s.drop_last().take(k) =~= s.take(k));
        lemma_first_marked_extends(s.drop_last(), k);
    }
}

/// Picks the workspace root among the working directory and its ancestors
/// (`ancestors[0]` is the working directory, each next one its parent);
/// `has_git[i]` tells whether `ancestors[i]` holds `.git`.
pub fn choose_workspace_root(ancestors: &Vec<String>, has_git: &Vec<bool>) -> (r: String)
    requires
        ancestors@.len() > 0,
        has_git@.len() == ancestors@.len(),
    ensures
        match first_marked(has_git@) {
            Some(i) => r@ == ancestors@[i]@,
            None => r@ == ancestors@[0]@,
        },
{
    let n = ancestors.len();
    let mut i: usize = 0;
    while i < n
        invariant
            n == ancestors@.len(),
            n == has_git@.len(),
            i <= n,
            first_marked(has_git@.take(i as int)) is None,
        decreases n - i,
    {
        proof {
            assert(has_git@.take(i + 1).drop_last() =~= has_git@.take(i as int));
            assert(has_git@.take(i + 1).last() == has_git@[i as int]);
        }
        if has_git[i] {
            proof {
                lemma_first_marked_extends(has_git@, i + 1);
            }
            return ancestors[i].clone();
        }
        i = i + 1;
    }
    assert(has_git@.take(n as int) =~= has_git@);
    ancestors[0].clone()
}

} // verus!
