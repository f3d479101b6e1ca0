//! Verified text scanning: substring and character search over `&str`.
//!
//! The trend detector gates one of its alerts on the server's display
//! name containing a marker, and deep-link construction switches on
//! whether a session identifier contains a separator character.

use vstd::prelude::*;

verus! {

/// True when `needle` occurs contiguously somewhere in `haystack`.
pub open spec fn contains_seq(haystack: Seq<char>, needle: Seq<char>) -> bool {
    exists|i: int|
        0 <= i && i + needle.len() <= haystack.len() && #[trigger] haystack.subrange(
            i,
            i + needle.len(),
        ) == needle
}

/// True when the character `c` occurs in `s`.
pub open spec fn contains_char(s: Seq<char>, c: char) -> bool {
    exists|i: int| 0 <= i < s.len() && s[i] == c
}

/// Substring search by direct comparison at every starting position.
pub fn str_contains(haystack: &str, needle: &str) -> (r: bool)
    ensures
        r == contains_seq(haystack@, needle@),
{
    let hlen = haystack.unicode_len();
    let nlen = needle.unicode_len();
    if nlen > hlen {
        return false;
    }
    let mut start: usize = 0;
    while start <= hlen - nlen
        invariant
            nlen <= hlen,
            hlen == haystack@.len(),
            nlen == needle@.len(),
            start <= hlen - nlen + 1,
            forall|i: int|
                0 <= i < start ==> #[trigger] haystack@.subrange(i, i + needle@.len())
                    != needle@,
        decreases hlen - nlen - start + 1,
    {
        let mut j: usize = 0;
        let mut all_equal = true;
        while j < nlen
            invariant
                nlen <= hlen == haystack@.len(),
                nlen == needle@.len(),
                start + nlen <= hlen,
                j <= nlen,
                all_equal <==> (forall|k: int|
                    0 <= k < j ==> haystack@[start + k] == #[trigger] needle@[k]),
            decreases nlen - j,
        {
            if haystack.get_char(start + j) != needle.get_char(j) {
                all_equal = false;
                assert(haystack@[start + j as int] != needle@[j as int]);
                j = nlen;
            } else {
                j = j + 1;
            }
        }
        if all_equal {
            proof {
                let sub = haystack@.subrange(start as int, start + needle@.len());
                assert(sub =~= needle@);
            }
            return true;
        }
        proof {
            let sub = haystack@.subrange(start as int, start + needle@.len());
            let k = choose|k: int|
                0 <= k < needle@.len() && haystack@[start + k] != #[trigger] needle@[k];
            assert(sub[k] == haystack@[start + k]);
            assert(sub != needle@);
        }
        start = start + 1;
    }
    assert(!contains_seq(haystack@, needle@)) by {
        assert(forall|i: int|
            0 <= i && i + needle@.len() <= haystack@.len() ==> #[trigger] haystack@.subrange(
                i,
                i + needle@.len(),
            ) != needle@);
    }
    false
}

/// Character search by a scan over every position.
pub fn str_contains_char(s: &str, c: char) -> (r: bool)
    ensures
        r == contains_char(s@, c),
{
    let len = s.unicode_len();
    let mut i: usize = 0;
    while i < len
        invariant
            len == s@.len(),
            i <= len,
            forall|k: int| 0 <= k < i ==> s@[k] != c,
        decreases len - i,
    {
        if s.get_char(i) == c {
            return true;
        }
        i = i + 1;
    }
    false
}

} // verus!
