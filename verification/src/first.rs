//! "The first that matches": the rule by which a peripheral, a service and
//! a characteristic are each chosen from a sequence.

use vstd::prelude::*;

verus! {

/// `i` is the position of the first member of `s` that satisfies `p`.
pub open spec fn is_first<T>(s: Seq<T>, p: spec_fn(T) -> bool, i: int) -> bool {
    &&& 0 <= i < s.len()
    &&& p(s[i])
    &&& forall|j: int| 0 <= j < i ==> !p(#[trigger] s[j])
}

/// No member of `s` satisfies `p`.
pub open spec fn none_of<T>(s: Seq<T>, p: spec_fn(T) -> bool) -> bool {
    forall|j: int| 0 <= j < s.len() ==> !p(#[trigger] s[j])
}

/// The position of the first member of `s` that satisfies `p`, if any does.
pub open spec fn first_index<T>(s: Seq<T>, p: spec_fn(T) -> bool) -> Option<int> {
    if none_of(s, p) {
        None
    } else {
        Some(choose|i: int| is_first(s, p, i))
    }
}

/// A sequence has at most one first match.
pub proof fn lemma_first_unique<T>(s: Seq<T>, p: spec_fn(T) -> bool, i: int, j: int)
    requires
        is_first(s, p, i),
        is_first(s, p, j),
    ensures
        i == j,
{
    if i < j {
        assert(!p(s[i]));
    } else if j < i {
        assert(!p(s[j]));
    }
}

/// Either nothing matches or there is a first match, never both.
pub proof fn lemma_first_or_none<T>(s: Seq<T>, p: spec_fn(T) -> bool)
    ensures
        none_of(s, p) <==> !exists|i: int| is_first(s, p, i),
    decreases s.len(),
{
    if s.len() > 0 {
        let front = s.drop_last();
        lemma_first_or_none(front, p);
        if exists|i: int| is_first(front, p, i) {
            let i = choose|i: int| is_first(front, p, i);
            assert(s[i] == front[i]);
            assert forall|j: int| 0 <= j < i implies !p(#[trigger] s[j]) by {
                assert(s[j] == front[j]);
            }
            assert(is_first(s, p, i));
        } else if p(s.last()) {
            let i = s.len() - 1;
            assert forall|j: int| 0 <= j < i implies !p(#[trigger] s[j]) by {
                assert(s[j] == front[j]);
            }
            assert(is_first(s, p, i));
        } else {
            assert forall|j: int| 0 <= j < s.len() implies !p(#[trigger] s[j]) by {
                if j < s.len() - 1 {
                    assert(s[j] == front[j]);
                }
            }
        }
    }
    if exists|i: int| is_first(s, p, i) {
        let i = choose|i: int| is_first(s, p, i);
        assert(p(s[i]));
    }
}

/// `first_index` gives the first match where there is one, and nothing
/// where there is none.
pub proof fn lemma_first_index<T>(s: Seq<T>, p: spec_fn(T) -> bool)
    ensures
        match first_index(s, p) {
            Some(i) => is_first(s, p, i),
            None => none_of(s, p),
        },
        forall|i: int| is_first(s, p, i) ==> first_index(s, p) == Some(i),
{
    lemma_first_or_none(s, p);
    assert forall|i: int| is_first(s, p, i) implies first_index(s, p) == Some(i) by {
        assert(p(s[i]));
        lemma_first_unique(s, p, i, first_index(s, p)->0);
    }
}

/// Two tests that agree on every member of a sequence have the same
/// first match in it.
pub proof fn lemma_first_index_agrees<T>(s: Seq<T>, p: spec_fn(T) -> bool, q: spec_fn(T) -> bool)
    requires
        forall|j: int| 0 <= j < s.len() ==> p(#[trigger] s[j]) == q(s[j]),
    ensures
        first_index(s, p) == first_index(s, q),
{
    lemma_first_index(s, p);
    lemma_first_index(s, q);
    match first_index(s, p) {
        Some(i) => {
            assert(q(s[i]));
            assert(is_first(s, q, i));
        },
        None => {
            assert(none_of(s, q));
        },
    }
}

/// What follows the first match plays no part in it: two sequences that
/// agree up to and including the match have the same first match.
pub proof fn lemma_first_ignores_tail<T>(a: Seq<T>, b: Seq<T>, p: spec_fn(T) -> bool, i: int)
    requires
        is_first(a, p, i),
        i < b.len(),
        a.take(i + 1) == b.take(i + 1),
    ensures
        is_first(b, p, i),
        first_index(a, p) == first_index(b, p),
{
    assert forall|j: int| 0 <= j <= i implies a[j] == b[j] by {
        assert(a.take(i + 1)[j] == a[j]);
        assert(b.take(i + 1)[j] == b[j]);
    }
    assert forall|j: int| 0 <= j < i implies !p(#[trigger] b[j]) by {
        assert(a[j] == b[j]);
    }
    assert(is_first(b, p, i));
    lemma_first_index(a, p);
    lemma_first_index(b, p);
}

} // verus!
