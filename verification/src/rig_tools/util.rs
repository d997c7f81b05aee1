//! Text truncation by UTF-8 byte budget.
use crate::text::{from_chars, to_chars};
use vstd::prelude::*;
use vstd::slice::slice_subrange;

verus! {

/// Number of bytes in the UTF-8 encoding of `c`.
pub open spec fn char_width(c: char) -> nat {
    let u = c as u32;
    if u < 0x80 {
        1
    } else if u < 0x800 {
        2
    } else if u < 0x10000 {
        3
    } else {
        4
    }
}

/// Number of bytes in the UTF-8 encoding of `s`.
pub open spec fn utf8_size(s: Seq<char>) -> nat
    decreases s.len(),
{
    if s.len() == 0 {
        0
    } else {
        utf8_size(s.drop_last()) + char_width(s.last())
    }
}

/// `k` is the longest prefix length of `s` whose encoding fits in `max` bytes.
pub open spec fn longest_fitting_prefix(s: Seq<char>, max: nat, k: int) -> bool {
    0 <= k <= s.len() && utf8_size(s.take(k)) <= max && (k == s.len() || utf8_size(s.take(k + 1))
        > max)
}

fn width_of(c: char) -> (w: usize)
    ensures
        w == char_width(c),
{
    let u = c as u32;
    if u < 0x80 {
        1
    } else if u < 0x800 {
        2
    } else if u < 0x10000 {
        3
    } else {
        4
    }
}

/// Cuts `text` to the longest prefix of whole characters whose UTF-8 encoding
/// fits in `max_bytes`, and tells whether anything was cut.
pub fn truncate_text(text: &str, max_bytes: usize) -> (r: (String, bool))
    ensures
        utf8_size(text@) <= max_bytes ==> r.0@ == text@ && !r.1,
        utf8_size(text@) > max_bytes ==> r.1 && exists|k: int|
            longest_fitting_prefix(text@, max_bytes as nat, k) && r.0@ == text@.take(k),
{
    let v = to_chars(text);
    let mut i: usize = 0;
    let mut total: usize = 0;
    assert(v@.take(0) == Seq::<char>::empty());
    while i < v.len()
        invariant
            i <= v@.len(),
            v@ == text@,
            total == utf8_size(v@.take(i as int)),
            total <= max_bytes,
        decreases v@.len() - i,
    {
        let w = width_of(v[i]);
        assert(v@.take(i + 1).drop_last() == v@.take(i as int));
        assert(v@.take(i + 1).last() == v@[i as int]);
        assert(utf8_size(v@.take(i + 1)) == total + w);
        if w > max_bytes - total {
            let head = slice_subrange(v.as_slice(), 0, i);
            proof {
                assert(v@.subrange(0, i as int) == v@.take(i as int));
                assert(longest_fitting_prefix(v@, max_bytes as nat, i as int));
                lemma_size_monotone(v@, i as int + 1, v@.len() as int);
                assert(v@.take(v@.len() as int) == v@);
            }
            let out = from_chars(head);
            assert(utf8_size(v@) > max_bytes);
            assert(out@ == text@.take(i as int));
            return (out, true);
        }
        total = total + w;
        i = i + 1;
    }
    assert(v@.take(v@.len() as int) == v@);
    (from_chars(v.as_slice()), false)
}

/// Longer prefixes never encode to fewer bytes.
pub proof fn lemma_size_monotone(s: Seq<char>, i: int, j: int)
    requires
        0 <= i <= j <= s.len(),
    ensures
        utf8_size(s.take(i)) <= utf8_size(s.take(j)),
    decreases j - i,
{
    if i < j {
        lemma_size_monotone(s, i, j - 1);
        assert(s.take(j).drop_last() == s.take(j - 1));
    }
}

} // verus!
