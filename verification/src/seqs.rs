//! Facts about filtered and mapped sequences.

use vstd::prelude::*;

verus! {

/// One step of filtering from the front.
pub proof fn lemma_filter_step<A>(s: Seq<A>, keep: spec_fn(A) -> bool, i: int)
    requires
        0 <= i < s.len(),
    ensures
        s.take(i + 1).filter(keep) == if keep(s[i]) {
            s.take(i).filter(keep).push(s[i])
        } else {
            s.take(i).filter(keep)
        },
{
    reveal(Seq::filter);
    assert(s.take(i + 1).drop_last() =~= s.take(i));
    assert(s.take(i + 1).last() == s[i]);
}

/// Nothing is left of nothing.
pub proof fn lemma_filter_start<A>(s: Seq<A>, keep: spec_fn(A) -> bool)
    ensures
        s.take(0).filter(keep) == Seq::<A>::empty(),
{
    reveal(Seq::filter);
    assert(s.take(0).len() == 0);
}

/// Filtering the whole sequence.
pub proof fn lemma_filter_end<A>(s: Seq<A>, keep: spec_fn(A) -> bool)
    ensures
        s.take(s.len() as int).filter(keep) == s.filter(keep),
{
    assert(s.take(s.len() as int) =~= s);
}

/// What a filter keeps satisfies it and was there before.
pub proof fn lemma_filter_keeps<A>(s: Seq<A>, keep: spec_fn(A) -> bool)
    ensures
        forall|i: int| 0 <= i < s.filter(keep).len() ==> keep(#[trigger] s.filter(keep)[i])
            && s.contains(s.filter(keep)[i]),
        s.filter(keep).len() <= s.len(),
    decreases s.len(),
{
    reveal(Seq::filter);
    if s.len() > 0 {
        let t = s.drop_last();
        lemma_filter_keeps(t, keep);
        assert forall|i: int| 0 <= i < s.filter(keep).len() implies keep(
            #[trigger] s.filter(keep)[i],
        ) && s.contains(s.filter(keep)[i]) by {
            if i < t.filter(keep).len() {
                assert(t.contains(t.filter(keep)[i]));
                let j = choose|j: int| 0 <= j < t.len() && t[j] == t.filter(keep)[i];
                assert(s[j] == t[j]);
            } else {
                assert(s[s.len() - 1] == s.last());
            }
        }
    }
}

/// What satisfies a filter is kept by it.
pub proof fn lemma_filter_has<A>(s: Seq<A>, keep: spec_fn(A) -> bool, i: int)
    requires
        0 <= i < s.len(),
        keep(s[i]),
    ensures
        s.filter(keep).contains(s[i]),
    decreases s.len(),
{
    reveal(Seq::filter);
    let t = s.drop_last();
    if i < t.len() {
        lemma_filter_has(t, keep, i);
        assert(t[i] == s[i]);
        let j = choose|j: int| 0 <= j < t.filter(keep).len() && t.filter(keep)[j] == s[i];
        assert(s.filter(keep)[j] == s[i]);
    } else {
        assert(s.filter(keep).last() == s[i]);
        assert(s.filter(keep)[s.filter(keep).len() - 1] == s[i]);
    }
}

/// A filter takes a row of things apart at any place: what it keeps of the whole is what it keeps of
/// the one part, and then what it keeps of the other.
pub proof fn lemma_filter_adds<A>(a: Seq<A>, b: Seq<A>, keep: spec_fn(A) -> bool)
    ensures
        (a + b).filter(keep) == a.filter(keep) + b.filter(keep),
    decreases b.len(),
{
    reveal(Seq::filter);
    if b.len() == 0 {
        assert(a + b =~= a);
        assert(a.filter(keep) + b.filter(keep) =~= a.filter(keep));
    } else {
        let c = b.drop_last();
        lemma_filter_adds(a, c, keep);
        assert((a + b).drop_last() =~= a + c);
        assert((a + b).last() == b.last());
        if keep(b.last()) {
            assert(a.filter(keep) + c.filter(keep).push(b.last()) =~= (a.filter(keep) + c.filter(
                keep,
            )).push(b.last()));
        }
    }
}

/// One thing is kept or not.
pub proof fn lemma_filter_one<A>(x: A, keep: spec_fn(A) -> bool)
    ensures
        seq![x].filter(keep) == if keep(x) {
            seq![x]
        } else {
            Seq::<A>::empty()
        },
{
    reveal(Seq::filter);
    assert(seq![x].drop_last() =~= Seq::<A>::empty());
    assert(seq![x].last() == x);
    assert(Seq::<A>::empty().filter(keep) =~= Seq::<A>::empty());
    assert(Seq::<A>::empty().push(x) =~= seq![x]);
}

/// What a filter keeps of a rising row rises too.
pub proof fn lemma_filter_rises(s: Seq<usize>, keep: spec_fn(usize) -> bool)
    requires
        forall|i: int, j: int| 0 <= i < j < s.len() ==> #[trigger] s[i] < #[trigger] s[j],
    ensures
        forall|i: int, j: int|
            0 <= i < j < s.filter(keep).len() ==> #[trigger] s.filter(keep)[i]
                < #[trigger] s.filter(keep)[j],
    decreases s.len(),
{
    reveal(Seq::filter);
    if s.len() > 0 {
        let t = s.drop_last();
        lemma_filter_rises(t, keep);
        lemma_filter_keeps(t, keep);
        assert forall|i: int, j: int| 0 <= i < j < s.filter(keep).len() implies #[trigger] s.filter(
            keep,
        )[i] < #[trigger] s.filter(keep)[j] by {
            if j == t.filter(keep).len() {
                assert(t.contains(t.filter(keep)[i]));
                let k = choose|k: int| 0 <= k < t.len() && t[k] == t.filter(keep)[i];
                assert(s[k] < s[s.len() - 1]);
            }
        }
    }
}

} // verus!
