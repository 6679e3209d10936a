//! The first position in a sequence at which a predicate holds.
use vstd::prelude::*;

verus! {

/// The index of the first element of `s` that satisfies `p`, or `s.len()`
/// when no element does.
pub open spec fn first_index<A>(s: Seq<A>, p: spec_fn(A) -> bool) -> int
    decreases s.len(),
{
    if s.len() == 0 {
        0
    } else if p(s[0]) {
        0
    } else {
        1 + first_index(s.drop_first(), p)
    }
}

/// `first_index` lies in `0..=s.len()`; the element there satisfies `p` and
/// none before it does.
pub proof fn lemma_first_index_facts<A>(s: Seq<A>, p: spec_fn(A) -> bool)
    ensures
        0 <= first_index(s, p) <= s.len(),
        first_index(s, p) < s.len() ==> p(s[first_index(s, p)]),
        forall|j: int| 0 <= j < first_index(s, p) ==> !p(#[trigger] s[j]),
    decreases s.len(),
{
    if s.len() > 0 && !p(s[0]) {
        lemma_first_index_facts(s.drop_first(), p);
        assert forall|j: int| 0 <= j < first_index(s, p) implies !p(#[trigger] s[j]) by {
            if j > 0 {
                assert(s[j] == s.drop_first()[j - 1]);
            }
        }
    }
}

/// An index at which `p` holds and before which it never holds is the first
/// index.
pub proof fn lemma_first_index_is<A>(s: Seq<A>, p: spec_fn(A) -> bool, i: int)
    requires
        0 <= i <= s.len(),
        i < s.len() ==> p(s[i]),
        forall|j: int| 0 <= j < i ==> !p(#[trigger] s[j]),
    ensures
        first_index(s, p) == i,
    decreases i,
{
    if i > 0 {
        assert(!p(s[0]));
        assert forall|j: int| 0 <= j < i - 1 implies !p(#[trigger] s.drop_first()[j]) by {
            assert(s.drop_first()[j] == s[j + 1]);
        }
        lemma_first_index_is(s.drop_first(), p, i - 1);
    }
}


/// Keeping and mapping the elements of two sequences one after the other
/// gives the two results one after the other.
pub proof fn lemma_filter_map_add<A, B>(a: Seq<A>, b: Seq<A>, f: spec_fn(A) -> Option<B>)
    ensures
        (a + b).filter_map(f) == a.filter_map(f) + b.filter_map(f),
    decreases b.len(),
{
    if b.len() == 0 {
        assert(a + b =~= a);
        assert(a.filter_map(f) + b.filter_map(f) =~= a.filter_map(f));
    } else {
        lemma_filter_map_add(a, b.drop_last(), f);
        assert((a + b).drop_last() =~= a + b.drop_last());
        assert((a + b).last() == b.last());
        match f(b.last()) {
            Some(x) => {
                assert((a + b).filter_map(f) =~= a.filter_map(f) + b.filter_map(f));
            },
            None => {},
        }
    }
}

/// Every element that the map keeps shows up in the result.
pub proof fn lemma_filter_map_keeps<A, B>(s: Seq<A>, f: spec_fn(A) -> Option<B>, k: int)
    requires
        0 <= k < s.len(),
        f(s[k]) is Some,
    ensures
        s.filter_map(f).contains(f(s[k]).unwrap()),
    decreases s.len(),
{
    let x = f(s[k]).unwrap();
    if k == s.len() - 1 {
        let r = s.drop_last().filter_map(f);
        assert(s.filter_map(f) == r + seq![x]);
        assert((r + seq![x])[r.len() as int] == x);
    } else {
        lemma_filter_map_keeps(s.drop_last(), f, k);
        assert(s.drop_last()[k] == s[k]);
        let r = s.drop_last().filter_map(f);
        let i = choose|i: int| 0 <= i < r.len() && r[i] == x;
        match f(s.last()) {
            Some(y) => {
                assert((r + seq![y])[i] == x);
            },
            None => {},
        }
    }
}

/// A single element gives its mapped value when the map keeps it, and
/// nothing otherwise.
pub proof fn lemma_filter_map_one<A, B>(a: A, f: spec_fn(A) -> Option<B>)
    ensures
        seq![a].filter_map(f) == match f(a) {
            Some(x) => seq![x],
            None => Seq::<B>::empty(),
        },
{
    Seq::lemma_filter_map_singleton(a, f);
}

} // verus!
