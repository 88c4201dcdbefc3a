//! Facts about filtered sequences that the laws of the store rest on.

use vstd::prelude::*;

verus! {

/// Filtering twice is filtering once by a test that asks for both.
pub proof fn lemma_filter_twice<A>(
    s: Seq<A>,
    p: spec_fn(A) -> bool,
    q: spec_fn(A) -> bool,
    both: spec_fn(A) -> bool,
)
    requires
        forall|x: A| #[trigger] both(x) == (p(x) && q(x)),
    ensures
        s.filter(p).filter(q) == s.filter(both),
    decreases s.len(),
{
    if s.len() == 0 {
        s.lemma_filter_len(p);
        s.lemma_filter_len(both);
        s.filter(p).lemma_filter_len(q);
        assert(s.filter(p).filter(q) =~= s.filter(both));
    } else {
        let head = s.drop_last();
        let last = s.last();
        lemma_filter_twice(head, p, q, both);
        assert(s =~= head.push(last));
        head.lemma_filter_push(last, p);
        head.lemma_filter_push(last, both);
        if p(last) {
            head.filter(p).lemma_filter_push(last, q);
        }
    }
}

/// Two tests that agree on every element of a sequence filter it alike.
pub proof fn lemma_filter_agree<A>(s: Seq<A>, p: spec_fn(A) -> bool, q: spec_fn(A) -> bool)
    requires
        forall|i: int| 0 <= i < s.len() ==> p(#[trigger] s[i]) == q(s[i]),
    ensures
        s.filter(p) == s.filter(q),
    decreases s.len(),
{
    if s.len() == 0 {
        s.lemma_filter_len(p);
        s.lemma_filter_len(q);
        assert(s.filter(p) =~= s.filter(q));
    } else {
        let head = s.drop_last();
        let last = s.last();
        assert forall|i: int| 0 <= i < head.len() implies p(#[trigger] head[i]) == q(head[i]) by {
            assert(head[i] == s[i]);
        }
        lemma_filter_agree(head, p, q);
        assert(s =~= head.push(last));
        head.lemma_filter_push(last, p);
        head.lemma_filter_push(last, q);
        assert(p(s[s.len() - 1]) == q(s[s.len() - 1]));
    }
}

/// A test that every element passes filters nothing out.
pub proof fn lemma_filter_all<A>(s: Seq<A>, p: spec_fn(A) -> bool)
    requires
        forall|i: int| 0 <= i < s.len() ==> p(#[trigger] s[i]),
    ensures
        s.filter(p) == s,
    decreases s.len(),
{
    if s.len() == 0 {
        s.lemma_filter_len(p);
        assert(s.filter(p) =~= s);
    } else {
        let head = s.drop_last();
        let last = s.last();
        assert forall|i: int| 0 <= i < head.len() implies p(#[trigger] head[i]) by {
            assert(head[i] == s[i]);
        }
        lemma_filter_all(head, p);
        assert(s =~= head.push(last));
        head.lemma_filter_push(last, p);
        assert(p(s[s.len() - 1]));
    }
}

/// A test that no element passes filters everything out.
pub proof fn lemma_filter_none<A>(s: Seq<A>, p: spec_fn(A) -> bool)
    requires
        forall|i: int| 0 <= i < s.len() ==> !p(#[trigger] s[i]),
    ensures
        s.filter(p) == Seq::<A>::empty(),
    decreases s.len(),
{
    if s.len() == 0 {
        s.lemma_filter_len(p);
        assert(s.filter(p) =~= Seq::<A>::empty());
    } else {
        let head = s.drop_last();
        let last = s.last();
        assert forall|i: int| 0 <= i < head.len() implies !p(#[trigger] head[i]) by {
            assert(head[i] == s[i]);
        }
        lemma_filter_none(head, p);
        assert(s =~= head.push(last));
        head.lemma_filter_push(last, p);
        assert(!p(s[s.len() - 1]));
    }
}

/// Every element of a filtered sequence passes the test and stood in the
/// sequence before.
pub proof fn lemma_filter_member<A>(s: Seq<A>, p: spec_fn(A) -> bool, i: int)
    requires
        0 <= i < s.filter(p).len(),
    ensures
        p(s.filter(p)[i]),
        s.contains(s.filter(p)[i]),
{
    s.lemma_filter_pred(p, i);
    assert(s.filter(p).contains(s.filter(p)[i]));
    s.lemma_filter_contains_rev(p, s.filter(p)[i]);
}

} // verus!
