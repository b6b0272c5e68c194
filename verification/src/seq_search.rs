//! Searching a sequence: the first element that a test accepts, and the
//! elements that it accepts, in order. The collections of the library
//! (shortcut maps, drawing, marker and price-line sets) state their lookups
//! with these.

use vstd::prelude::*;

verus! {

/// `i` is the position of the first element of `s` that `p` accepts.
pub open spec fn is_first_where<A>(s: Seq<A>, p: spec_fn(A) -> bool, i: int) -> bool {
    &&& 0 <= i < s.len()
    &&& p(s[i])
    &&& forall|j: int| 0 <= j < i ==> !p(#[trigger] s[j])
}

/// The position of the first element of `s` that `p` accepts, if any.
pub open spec fn first_where<A>(s: Seq<A>, p: spec_fn(A) -> bool) -> Option<int> {
    if exists|i: int| is_first_where(s, p, i) {
        Some(choose|i: int| is_first_where(s, p, i))
    } else {
        None
    }
}

/// `f` of each element of `s` that `p` accepts, in order.
pub open spec fn picked<A, B>(s: Seq<A>, p: spec_fn(A) -> bool, f: spec_fn(A) -> B) -> Seq<B>
    decreases s.len(),
{
    if s.len() == 0 {
        Seq::empty()
    } else {
        let rest = picked(s.drop_last(), p, f);
        if p(s.last()) {
            rest.push(f(s.last()))
        } else {
            rest
        }
    }
}

/// There is at most one first position.
pub proof fn lemma_first_where_unique<A>(s: Seq<A>, p: spec_fn(A) -> bool, i: int)
    requires
        is_first_where(s, p, i),
    ensures
        first_where(s, p) == Some(i),
{
    let c = choose|c: int| is_first_where(s, p, c);
    if c < i {
        assert(!p(s[c]));
    } else if i < c {
        assert(!p(s[i]));
    }
}

/// When `p` accepts some element of `s`, there is a first one.
pub proof fn lemma_first_where_exists<A>(s: Seq<A>, p: spec_fn(A) -> bool, i: int)
    requires
        0 <= i < s.len(),
        p(s[i]),
    ensures
        first_where(s, p) is Some,
    decreases i,
{
    if exists|j: int| 0 <= j < i && p(s[j]) {
        let j = choose|j: int| 0 <= j < i && p(s[j]);
        lemma_first_where_exists(s, p, j);
    } else {
        assert(is_first_where(s, p, i));
    }
}

/// When `p` accepts no element of `s`, there is no first position.
pub proof fn lemma_first_where_none<A>(s: Seq<A>, p: spec_fn(A) -> bool)
    requires
        forall|j: int| 0 <= j < s.len() ==> !p(#[trigger] s[j]),
    ensures
        first_where(s, p) is None,
{
}

/// An element appended after elements that `p` rejects is the first one
/// that `p` accepts.
pub proof fn lemma_first_where_push<A>(s: Seq<A>, p: spec_fn(A) -> bool, a: A)
    requires
        first_where(s, p) is None,
        p(a),
    ensures
        first_where(s.push(a), p) == Some(s.len() as int),
{
    let t = s.push(a);
    assert forall|j: int| 0 <= j < s.len() implies !p(#[trigger] t[j]) by {
        assert(t[j] == s[j]);
        if p(s[j]) {
            lemma_first_where_exists(s, p, j);
        }
    }
    lemma_first_where_unique(t, p, s.len() as int);
}

/// One more element of `s` taken into account extends what `picked` gives.
pub proof fn lemma_picked_take<A, B>(s: Seq<A>, p: spec_fn(A) -> bool, f: spec_fn(A) -> B, i: int)
    requires
        0 <= i < s.len(),
    ensures
        picked(s.take(i + 1), p, f) == (if p(s[i]) {
            picked(s.take(i), p, f).push(f(s[i]))
        } else {
            picked(s.take(i), p, f)
        }),
{
    assert(s.take(i + 1).drop_last() =~= s.take(i));
}

} // verus!
