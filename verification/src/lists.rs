//! Searching a sequence for the first element of a kind.

use vstd::prelude::*;

verus! {

/// The position of the first element of `s` that satisfies `p`, or the
/// length of `s` where none does.
pub open spec fn first_where<A>(s: Seq<A>, p: spec_fn(A) -> bool) -> nat
    decreases s.len(),
{
    if s.len() == 0 || p(s[0]) {
        0
    } else {
        1 + first_where(s.drop_first(), p)
    }
}

/// `first_where` is the least position whose element satisfies `p`.
pub proof fn lemma_first_where<A>(s: Seq<A>, p: spec_fn(A) -> bool)
    ensures
        first_where(s, p) <= s.len(),
        forall|j: int| 0 <= j < first_where(s, p) ==> !p(s[j]),
        first_where(s, p) < s.len() ==> p(s[first_where(s, p) as int]),
    decreases s.len(),
{
    if s.len() > 0 && !p(s[0]) {
        let t = s.drop_first();
        lemma_first_where(t, p);
        assert forall|j: int| 0 <= j < first_where(s, p) implies !p(s[j]) by {
            if j > 0 {
                assert(s[j] == t[j - 1]);
            }
        }
    }
}

/// A position `k` with no element that satisfies `p` before it, which holds
/// one or is the end, is `first_where`.
pub proof fn lemma_first_where_is<A>(s: Seq<A>, p: spec_fn(A) -> bool, k: int)
    requires
        0 <= k <= s.len(),
        forall|j: int| 0 <= j < k ==> !p(s[j]),
        k < s.len() ==> p(s[k]),
    ensures
        first_where(s, p) == k,
{
    lemma_first_where(s, p);
}

/// The first `limit` elements of `s`, or all of them where there are fewer.
pub open spec fn at_most<A>(s: Seq<A>, limit: int) -> Seq<A> {
    if s.len() <= limit {
        s
    } else {
        s.take(limit)
    }
}

/// The values behind a sequence of references.
pub open spec fn targets<A>(refs: Seq<&A>) -> Seq<A> {
    refs.map_values(|r: &A| *r)
}

/// `targets` follows `push`.
pub proof fn lemma_targets_push<A>(refs: Seq<&A>, r: &A)
    ensures
        targets(refs.push(r)) == targets(refs).push(*r),
{
}

} // verus!
