//! Substring containment over character sequences.
//!
//! Device instances are located by a deliberately loose rule: an instance
//! identifier matches a hardware identifier when it contains it as a
//! substring, so any instance suffix (port, serial) still matches.

use vstd::prelude::*;

verus! {

/// `needle` occurs in `hay` starting at position `i`.
pub open spec fn matches_at(hay: Seq<char>, needle: Seq<char>, i: int) -> bool {
    &&& 0 <= i
    &&& i + needle.len() <= hay.len()
    &&& forall|j: int| 0 <= j < needle.len() ==> hay[i + j] == needle[j]
}

/// `needle` occurs somewhere in `hay`.
pub open spec fn contains_seq(hay: Seq<char>, needle: Seq<char>) -> bool {
    exists|i: int| matches_at(hay, needle, i)
}

/// Whether `needle` occurs in `hay` starting exactly at `i`.
fn matches_prefix_at(hay: &str, needle: &str, i: usize) -> (r: bool)
    requires
        i + needle@.len() <= hay@.len(),
    ensures
        r == matches_at(hay@, needle@, i as int),
{
    let h = hay.unicode_len();
    let n = needle.unicode_len();
    let mut j: usize = 0;
    while j < n
        invariant
            h == hay@.len(),
            n == needle@.len(),
            i + n <= hay@.len(),
            0 <= j <= n,
            forall|l: int| 0 <= l < j ==> hay@[i + l] == needle@[l],
        decreases n - j,
    {
        if hay.get_char(i + j) != needle.get_char(j) {
            assert(!matches_at(hay@, needle@, i as int));
            return false;
        }
        j += 1;
    }
    true
}

/// Whether `hay` contains `needle` as a substring.
pub fn str_contains(hay: &str, needle: &str) -> (r: bool)
    ensures
        r == contains_seq(hay@, needle@),
{
    let h = hay.unicode_len();
    let n = needle.unicode_len();
    if n > h {
        assert(forall|i: int| !matches_at(hay@, needle@, i));
        return false;
    }
    let mut i: usize = 0;
    while i <= h - n
        invariant
            h == hay@.len(),
            n == needle@.len(),
            n <= h,
            0 <= i <= h - n + 1,
            forall|k: int| 0 <= k < i ==> !matches_at(hay@, needle@, k),
        decreases h - i,
    {
        if matches_prefix_at(hay, needle, i) {
            return true;
        }
        i += 1;
    }
    assert forall|k: int| !matches_at(hay@, needle@, k) by {
        if 0 <= k < i {
            assert(!matches_at(hay@, needle@, k));
        }
    }
    false
}

} // verus!
