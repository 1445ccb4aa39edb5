//! Byte-string containment, used by the share-price calculator's relevance
//! filter: a pool backs an asset only if the asset's symbol occurs in the
//! LP token's name or symbol.

use vstd::prelude::*;

verus! {

/// `needle` occurs contiguously somewhere in `hay` (the empty needle occurs
/// everywhere).
pub open spec fn is_substr(hay: Seq<u8>, needle: Seq<u8>) -> bool {
    exists|i: int|
        0 <= i <= hay.len() - needle.len() && #[trigger] hay.subrange(i, i + needle.len() as int)
            == needle
}

/// Decides `is_substr` by checking every candidate offset.
#[verifier::loop_isolation(false)]
pub fn contains_subslice(hay: &Vec<u8>, needle: &Vec<u8>) -> (r: bool)
    ensures
        r == is_substr(hay@, needle@),
{
    let nlen = needle.len();
    let hlen = hay.len();
    if nlen > hlen {
        return false;
    }
    if nlen == 0 {
        proof {
            assert(hay@.subrange(0, 0 + needle@.len() as int) =~= needle@);
        }
        return true;
    }
    let mut i: usize = 0;
    while i <= hlen - nlen
        invariant
            0 <= i <= hlen - nlen + 1,
            forall|k: int|
                0 <= k < i ==> #[trigger] hay@.subrange(k, k + nlen as int) != needle@,
        decreases hlen - nlen - i + 1,
    {
        let mut j: usize = 0;
        let mut matched = true;
        while j < nlen && matched
            invariant
                0 <= j <= nlen,
                i + nlen <= hlen,
                matched ==> forall|t: int| 0 <= t < j ==> hay@[i as int + t] == needle@[t],
                !matched ==> hay@.subrange(i as int, i + nlen as int) != needle@,
            decreases (if matched { 1int } else { 0int }), nlen - j,
        {
            if hay[i + j] != needle[j] {
                proof {
                    assert(hay@.subrange(i as int, i + nlen as int)[j as int] == hay@[i as int
                        + j as int]);
                }
                matched = false;
            } else {
                j = j + 1;
            }
        }
        if matched {
            proof {
                assert(hay@.subrange(i as int, i + nlen as int) =~= needle@);
            }
            return true;
        }
        i = i + 1;
    }
    proof {
        assert(forall|k: int|
            0 <= k <= hay@.len() - needle@.len() ==> #[trigger] hay@.subrange(
                k,
                k + needle@.len() as int,
            ) != needle@);
    }
    false
}

} // verus!
