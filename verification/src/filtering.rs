//! Facts about filtered sequences that the repository proofs rest on.

use vstd::multiset::Multiset;
use vstd::prelude::*;

verus! {

/// The empty sequence holds nothing.
pub proof fn lemma_empty_to_multiset<A>()
    ensures
        Seq::<A>::empty().to_multiset() == Multiset::<A>::empty(),
{
    let nothing = Seq::<A>::empty();
    nothing.to_multiset_ensures();
    vstd::multiset::lemma_multiset_empty_len(nothing.to_multiset());
}

/// Two predicates that agree on every element of a sequence filter it alike.
pub proof fn lemma_filter_agree<A>(s: Seq<A>, p: spec_fn(A) -> bool, q: spec_fn(A) -> bool)
    requires
        forall|i: int| 0 <= i < s.len() ==> p(#[trigger] s[i]) == q(s[i]),
    ensures
        s.filter(p) == s.filter(q),
    decreases s.len(),
{
    reveal(Seq::filter);
    if s.len() > 0 {
        let front = s.drop_last();
        assert forall|i: int| 0 <= i < front.len() implies p(#[trigger] front[i]) == q(front[i]) by {
            assert(front[i] == s[i]);
        }
        lemma_filter_agree(front, p, q);
        assert(p(s.last()) == q(s.last())) by {
            assert(s.last() == s[s.len() - 1]);
        }
    }
}

/// A predicate that no element meets filters everything out.
pub proof fn lemma_filter_none<A>(s: Seq<A>, p: spec_fn(A) -> bool)
    requires
        forall|i: int| 0 <= i < s.len() ==> !p(#[trigger] s[i]),
    ensures
        s.filter(p) == Seq::<A>::empty(),
    decreases s.len(),
{
    reveal(Seq::filter);
    if s.len() > 0 {
        let front = s.drop_last();
        assert forall|i: int| 0 <= i < front.len() implies !p(#[trigger] front[i]) by {
            assert(front[i] == s[i]);
        }
        lemma_filter_none(front, p);
        assert(!p(s.last())) by {
            assert(s.last() == s[s.len() - 1]);
        }
    } else {
        assert(s =~= Seq::<A>::empty());
    }
}

/// Filtering by `p` and then by `q` is filtering by both at once.
pub proof fn lemma_filter_twice<A>(
    s: Seq<A>,
    p: spec_fn(A) -> bool,
    q: spec_fn(A) -> bool,
    both: spec_fn(A) -> bool,
)
    requires
        forall|i: int| 0 <= i < s.len() ==> both(#[trigger] s[i]) == (p(s[i]) && q(s[i])),
    ensures
        s.filter(p).filter(q) == s.filter(both),
    decreases s.len(),
{
    reveal(Seq::filter);
    if s.len() > 0 {
        let front = s.drop_last();
        let last = s.last();
        assert forall|i: int| 0 <= i < front.len() implies both(#[trigger] front[i]) == (p(
            front[i],
        ) && q(front[i])) by {
            assert(front[i] == s[i]);
        }
        lemma_filter_twice(front, p, q, both);
        assert(both(last) == (p(last) && q(last))) by {
            assert(last == s[s.len() - 1]);
        }
        if p(last) {
            front.filter(p).lemma_filter_push(last, q);
        }
    }
}

/// Where no element meets both `p` and `q`, the elements that meet either are,
/// as a multiset, those that meet `p` together with those that meet `q`.
pub proof fn lemma_filter_split<A>(
    s: Seq<A>,
    p: spec_fn(A) -> bool,
    q: spec_fn(A) -> bool,
    either: spec_fn(A) -> bool,
)
    requires
        forall|i: int| 0 <= i < s.len() ==> either(#[trigger] s[i]) == (p(s[i]) || q(s[i])),
        forall|i: int| 0 <= i < s.len() ==> !(p(#[trigger] s[i]) && q(s[i])),
    ensures
        s.filter(either).to_multiset() == s.filter(p).to_multiset().add(s.filter(q).to_multiset()),
    decreases s.len(),
{
    reveal(Seq::filter);
    broadcast use vstd::seq_lib::to_multiset_build;

    if s.len() > 0 {
        let front = s.drop_last();
        let last = s.last();
        assert forall|i: int| 0 <= i < front.len() implies either(#[trigger] front[i]) == (p(
            front[i],
        ) || q(front[i])) by {
            assert(front[i] == s[i]);
        }
        assert forall|i: int| 0 <= i < front.len() implies !(p(#[trigger] front[i]) && q(
            front[i],
        )) by {
            assert(front[i] == s[i]);
        }
        lemma_filter_split(front, p, q, either);
        assert(last == s[s.len() - 1]);
        let fe = front.filter(either).to_multiset();
        let fp = front.filter(p).to_multiset();
        let fq = front.filter(q).to_multiset();
        if p(last) {
            assert(fe.insert(last) =~= fp.insert(last).add(fq));
        } else if q(last) {
            assert(fe.insert(last) =~= fp.add(fq.insert(last)));
        }
    } else {
        lemma_empty_to_multiset::<A>();
        assert(s.filter(either) =~= Seq::<A>::empty());
        assert(s.filter(p) =~= Seq::<A>::empty());
        assert(s.filter(q) =~= Seq::<A>::empty());
        assert(Multiset::<A>::empty() =~= Multiset::<A>::empty().add(Multiset::<A>::empty()));
    }
}

/// Mapping a push is pushing the mapped element.
pub proof fn lemma_map_push<A, B>(s: Seq<A>, x: A, f: spec_fn(A) -> B)
    ensures
        s.push(x).map_values(f) == s.map_values(f).push(f(x)),
{
    assert(s.push(x).map_values(f) =~= s.map_values(f).push(f(x)));
}

} // verus!
