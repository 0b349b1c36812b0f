//! Verified text primitives: substring search and character classes.

use vstd::prelude::*;

verus! {

/// `n` occurs in `h` starting exactly at index `i`.
pub open spec fn matches_at(h: Seq<char>, n: Seq<char>, i: int) -> bool {
    &&& 0 <= i
    &&& i + n.len() <= h.len()
    &&& h.subrange(i, i + n.len() as int) == n
}

/// `n` occurs somewhere in `h`.
pub open spec fn has_substring(h: Seq<char>, n: Seq<char>) -> bool {
    exists|i: int| matches_at(h, n, i)
}

/// Whether `needle` occurs in `h` starting at `i`.
pub fn match_at(h: &str, needle: &str, i: usize) -> (r: bool)
    requires
        i + needle@.len() <= h@.len(),
    ensures
        r == matches_at(h@, needle@, i as int),
{
    let hl = h.unicode_len();
    let nl = needle.unicode_len();
    let mut k: usize = 0;
    while k < nl
        invariant
            hl == h@.len(),
            nl == needle@.len(),
            i + nl <= hl,
            k <= nl,
            forall|t: int| 0 <= t < k ==> h@[i + t] == needle@[t],
        decreases nl - k,
    {
        if h.get_char(i + k) != needle.get_char(k) {
            proof {
                assert(!matches_at(h@, needle@, i as int)) by {
                    if h@.subrange(i as int, i + nl) == needle@ {
                        assert(h@.subrange(i as int, i + nl)[k as int] == h@[i + k]);
                    }
                }
            }
            return false;
        }
        k += 1;
    }
    proof {
        assert(h@.subrange(i as int, i + nl) =~= needle@);
    }
    true
}

/// Whether `needle` occurs anywhere in `h`.
pub fn contains_substring(h: &str, needle: &str) -> (r: bool)
    ensures
        r == has_substring(h@, needle@),
{
    let hl = h.unicode_len();
    let nl = needle.unicode_len();
    if nl > hl {
        proof {
            assert forall|i: int| !#[trigger] matches_at(h@, needle@, i) by {}
        }
        return false;
    }
    if nl == 0 {
        proof {
            assert(h@.subrange(0, 0) =~= needle@);
            assert(matches_at(h@, needle@, 0));
        }
        return true;
    }
    let mut i: usize = 0;
    while i <= hl - nl
        invariant
            hl == h@.len(),
            nl == needle@.len(),
            0 < nl <= hl,
            i <= hl - nl + 1,
            forall|j: int| 0 <= j < i ==> !#[trigger] matches_at(h@, needle@, j),
        decreases hl - nl + 1 - i,
    {
        if match_at(h, needle, i) {
            return true;
        }
        i += 1;
    }
    proof {
        assert forall|j: int| !#[trigger] matches_at(h@, needle@, j) by {}
    }
    false
}

/// An ASCII letter or digit.
pub open spec fn is_alnum(c: char) -> bool {
    ('a' <= c && c <= 'z') || ('A' <= c && c <= 'Z') || ('0' <= c && c <= '9')
}

/// Whether `c` is an ASCII letter or digit.
pub fn alnum(c: char) -> (r: bool)
    ensures
        r == is_alnum(c),
{
    ('a' <= c && c <= 'z') || ('A' <= c && c <= 'Z') || ('0' <= c && c <= '9')
}

} // verus!
