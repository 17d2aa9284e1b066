//! Substring containment over character sequences, matching what
//! `str::contains` decides on valid UTF-8 text: the needle occurs as a
//! contiguous run of characters inside the haystack. An empty needle occurs
//! in every haystack.

use vstd::prelude::*;

verus! {

/// The needle occurs in the haystack starting at character position `i`.
pub open spec fn matches_at(hay: Seq<char>, needle: Seq<char>, i: int) -> bool {
    &&& 0 <= i
    &&& i + needle.len() <= hay.len()
    &&& forall|j: int| 0 <= j < needle.len() ==> hay[i + j] == needle[j]
}

/// The needle occurs somewhere in the haystack as a contiguous substring.
pub open spec fn contains_substr(hay: Seq<char>, needle: Seq<char>) -> bool {
    exists|i: int| matches_at(hay, needle, i)
}

/// An empty needle occurs in every haystack, at position zero.
pub proof fn lemma_empty_needle_matches(hay: Seq<char>)
    ensures
        contains_substr(hay, Seq::<char>::empty()),
{
    assert(matches_at(hay, Seq::<char>::empty(), 0));
}

/// Decides substring containment by scanning every starting position.
pub fn contains(hay: &str, needle: &str) -> (r: bool)
    ensures
        r == contains_substr(hay@, needle@),
{
    let hlen = hay.unicode_len();
    let nlen = needle.unicode_len();
    if nlen > hlen {
        assert(forall|i: int| !matches_at(hay@, needle@, i));
        return false;
    }
    let mut i: usize = 0;
    while i <= hlen - nlen
        invariant
            hlen == hay@.len(),
            nlen == needle@.len(),
            nlen <= hlen,
            i <= hlen - nlen + 1,
            forall|k: int| 0 <= k < i ==> !matches_at(hay@, needle@, k),
        decreases hlen - nlen - i + 1,
    {
        let mut j: usize = 0;
        let mut same = true;
        while j < nlen
            invariant
                hlen == hay@.len(),
                nlen == needle@.len(),
                i + nlen <= hlen,
                j <= nlen,
                same ==> forall|l: int| 0 <= l < j ==> hay@[i + l] == needle@[l],
                !same ==> !matches_at(hay@, needle@, i as int),
            decreases nlen - j,
        {
            if hay.get_char(i + j) != needle.get_char(j) {
                same = false;
                j = nlen;
            } else {
                j = j + 1;
            }
        }
        if same {
            assert(matches_at(hay@, needle@, i as int));
            return true;
        }
        assert(!matches_at(hay@, needle@, i as int));
        i = i + 1;
    }
    assert(forall|k: int| !matches_at(hay@, needle@, k));
    false
}

} // verus!
