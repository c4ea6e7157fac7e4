//! Interest-match policy.
//!
//! A caller qualifies for a paid message when the caller's declared
//! interest bytes contain the message's target tag as a contiguous
//! substring.  Substring matching is deliberately coarse — an interest
//! list that merely embeds the tag qualifies — but it is the compatible
//! policy, so it lives behind this one named function and spec; swapping
//! in exact tag-set matching would touch nothing else in the engine.

use vstd::prelude::*;

verus! {

/// `needle` occurs contiguously inside `hay`.  The empty needle matches
/// everything.
pub open spec fn is_substring_of(needle: Seq<u8>, hay: Seq<u8>) -> bool {
    exists|i: int|
        0 <= i && i + needle.len() <= hay.len() && #[trigger] hay.subrange(i, i + needle.len())
            == needle
}

/// Whether the declared interests match a target tag: the tag must occur
/// as a contiguous byte substring of the interests.
pub fn interests_match(interests: &Vec<u8>, target: &Vec<u8>) -> (r: bool)
    ensures
        r == is_substring_of(target@, interests@),
{
    let n = target.len();
    let m = interests.len();
    if n > m {
        return false;
    }
    let mut start: usize = 0;
    while start <= m - n
        invariant
            n <= m,
            n == target@.len(),
            m == interests@.len(),
            start <= m - n + 1,
            forall|i: int|
                0 <= i < start ==> #[trigger] interests@.subrange(i, i + target@.len())
                    != target@,
        decreases m - n - start + 1,
    {
        let mut k: usize = 0;
        while k < n && interests[start + k] == target[k]
            invariant
                k <= n,
                n <= m,
                n == target@.len(),
                m == interests@.len(),
                start <= m - n,
                forall|j: int| 0 <= j < k ==> interests@[start + j] == target@[j],
            decreases n - k,
        {
            k = k + 1;
        }
        if k == n {
            proof {
                assert(interests@.subrange(start as int, start + target@.len()) =~= target@);
            }
            return true;
        }
        proof {
            assert(interests@.subrange(start as int, start + target@.len())[k as int]
                != target@[k as int]);
        }
        start = start + 1;
    }
    proof {
        assert forall|i: int| 0 <= i && i + target@.len() <= interests@.len() implies #[trigger]
        interests@.subrange(i, i + target@.len()) != target@ by {
            assert(i < start);
        }
    }
    false
}

} // verus!
