//! Character-level comparisons on argument tokens.
use vstd::prelude::*;

verus! {

/// `needle` occurs in `hay` as a contiguous run starting at `start`.
pub open spec fn occurs_at(hay: Seq<char>, needle: Seq<char>, start: int) -> bool {
    0 <= start && start + needle.len() <= hay.len()
        && hay.subrange(start, start + needle.len()) == needle
}

/// `needle` occurs somewhere in `hay` as a contiguous run.
pub open spec fn seq_contains(hay: Seq<char>, needle: Seq<char>) -> bool {
    exists|start: int| occurs_at(hay, needle, start)
}

/// Whether `a` and `b` hold the same characters.
pub fn same_text(a: &str, b: &str) -> (r: bool)
    ensures
        r == (a@ == b@),
{
    let n = a.unicode_len();
    if n != b.unicode_len() {
        return false;
    }
    let mut i: usize = 0;
    while i < n
        invariant
            n == a@.len(),
            n == b@.len(),
            i <= n,
            forall|k: int| 0 <= k < i ==> a@[k] == b@[k],
        decreases n - i,
    {
        if a.get_char(i) != b.get_char(i) {
            return false;
        }
        i = i + 1;
    }
    assert(a@ =~= b@);
    true
}

/// Whether the characters of `needle` occur as a contiguous run in `hay`.
pub fn contains_text(hay: &str, needle: &str) -> (r: bool)
    ensures
        r == seq_contains(hay@, needle@),
{
    let n = hay.unicode_len();
    let m = needle.unicode_len();
    if m > n {
        assert forall|s: int| !occurs_at(hay@, needle@, s) by {}
        return false;
    }
    let mut start: usize = 0;
    while start <= n - m
        invariant
            n == hay@.len(),
            m == needle@.len(),
            m <= n,
            start <= n - m + 1,
            forall|s: int| 0 <= s < start ==> !occurs_at(hay@, needle@, s),
        decreases n - m + 1 - start,
    {
        let mut j: usize = 0;
        while j < m
            invariant
                n == hay@.len(),
                m == needle@.len(),
                start + m <= n,
                j <= m,
                forall|k: int| 0 <= k < j ==> hay@[start + k] == needle@[k],
            ensures
                j < m ==> hay@[start + j] != needle@[j as int],
            decreases m - j,
        {
            if hay.get_char(start + j) != needle.get_char(j) {
                break;
            }
            j = j + 1;
        }
        if j == m {
            assert(hay@.subrange(start as int, start + m) =~= needle@);
            assert(occurs_at(hay@, needle@, start as int));
            return true;
        }
        assert(hay@.subrange(start as int, start + m)[j as int] != needle@[j as int]);
        start = start + 1;
    }
    false
}

} // verus!
