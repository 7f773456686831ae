//! First-match search over sequences.

use vstd::prelude::*;

verus! {

/// Index of the first element of `s` that satisfies `p`, if any.
pub open spec fn first_where<A>(s: Seq<A>, p: spec_fn(A) -> bool) -> Option<int>
    decreases s.len(),
{
    if s.len() == 0 {
        None
    } else if p(s[0]) {
        Some(0)
    } else {
        match first_where(s.skip(1), p) {
            Some(i) => Some(i + 1),
            None => None,
        }
    }
}

/// An element that satisfies `p` with none before it is the first match.
pub proof fn lemma_first_where_found<A>(s: Seq<A>, p: spec_fn(A) -> bool, k: int)
    requires
        0 <= k < s.len(),
        p(s[k]),
        forall|j: int| 0 <= j < k ==> !p(#[trigger] s[j]),
    ensures
        first_where(s, p) == Some(k),
    decreases s.len(),
{
    if k > 0 {
        assert forall|j: int| 0 <= j < k - 1 implies !p(#[trigger] s.skip(1)[j]) by {
            assert(s.skip(1)[j] == s[j + 1]);
        }
        lemma_first_where_found(s.skip(1), p, k - 1);
    }
}

/// With no element satisfying `p` there is no match.
pub proof fn lemma_first_where_none<A>(s: Seq<A>, p: spec_fn(A) -> bool)
    requires
        forall|j: int| 0 <= j < s.len() ==> !p(#[trigger] s[j]),
    ensures
        first_where(s, p) is None,
    decreases s.len(),
{
    if s.len() > 0 {
        assert forall|j: int| 0 <= j < s.len() - 1 implies !p(#[trigger] s.skip(1)[j]) by {
            assert(s.skip(1)[j] == s[j + 1]);
        }
        lemma_first_where_none(s.skip(1), p);
    }
}

/// A match is in range and satisfies `p`, with none before it.
pub proof fn lemma_first_where_props<A>(s: Seq<A>, p: spec_fn(A) -> bool)
    ensures
        match first_where(s, p) {
            Some(k) => 0 <= k < s.len() && p(s[k]) && forall|j: int| 0 <= j < k ==> !p(#[trigger] s[j]),
            None => forall|j: int| 0 <= j < s.len() ==> !p(#[trigger] s[j]),
        },
    decreases s.len(),
{
    if s.len() > 0 {
        lemma_first_where_props(s.skip(1), p);
        if !p(s[0]) {
            match first_where(s.skip(1), p) {
                Some(i) => {
                    assert(s.skip(1)[i] == s[i + 1]);
                    assert forall|j: int| 0 <= j < i + 1 implies !p(#[trigger] s[j]) by {
                        if j > 0 {
                            assert(s.skip(1)[j - 1] == s[j]);
                        }
                    }
                },
                None => {
                    assert forall|j: int| 0 <= j < s.len() implies !p(#[trigger] s[j]) by {
                        if j > 0 {
                            assert(s.skip(1)[j - 1] == s[j]);
                        }
                    }
                },
            }
        }
    }
}

/// Index of the last element of `s` that satisfies `p`, if any.
pub open spec fn last_where<A>(s: Seq<A>, p: spec_fn(A) -> bool) -> Option<int>
    decreases s.len(),
{
    if s.len() == 0 {
        None
    } else if p(s.last()) {
        Some(s.len() - 1)
    } else {
        last_where(s.drop_last(), p)
    }
}

/// An element that satisfies `p` with none after it is the last match.
pub proof fn lemma_last_where_found<A>(s: Seq<A>, p: spec_fn(A) -> bool, k: int)
    requires
        0 <= k < s.len(),
        p(s[k]),
        forall|j: int| k < j < s.len() ==> !p(#[trigger] s[j]),
    ensures
        last_where(s, p) == Some(k),
    decreases s.len(),
{
    if k < s.len() - 1 {
        assert forall|j: int| k < j < s.len() - 1 implies !p(#[trigger] s.drop_last()[j]) by {
            assert(s.drop_last()[j] == s[j]);
        }
        lemma_last_where_found(s.drop_last(), p, k);
    }
}

/// With no element satisfying `p` there is no last match.
pub proof fn lemma_last_where_none<A>(s: Seq<A>, p: spec_fn(A) -> bool)
    requires
        forall|j: int| 0 <= j < s.len() ==> !p(#[trigger] s[j]),
    ensures
        last_where(s, p) is None,
    decreases s.len(),
{
    if s.len() > 0 {
        assert forall|j: int| 0 <= j < s.len() - 1 implies !p(#[trigger] s.drop_last()[j]) by {
            assert(s.drop_last()[j] == s[j]);
        }
        lemma_last_where_none(s.drop_last(), p);
    }
}

/// Appending an item that satisfies `p` makes it the last match; appending
/// one that does not leaves the last match where it was.
pub proof fn lemma_last_where_push<A>(s: Seq<A>, a: A, p: spec_fn(A) -> bool)
    ensures
        last_where(s.push(a), p) == (if p(a) { Some(s.len() as int) } else { last_where(s, p) }),
{
    assert(s.push(a).drop_last() =~= s);
}

} // verus!
