//! Small sequence facts shared by the loops of this crate.

use vstd::prelude::*;

verus! {

/// Stepping a front-to-back scan: dropping the first element of `s.skip(i)`
/// yields `s.skip(i + 1)`, and its head is `s[i]`.
pub proof fn lemma_skip_step<T>(s: Seq<T>, i: int)
    requires
        0 <= i < s.len(),
    ensures
        s.skip(i).drop_first() == s.skip(i + 1),
        s.skip(i)[0] == s[i],
        s.skip(i).len() == s.len() - i,
{
    assert(s.skip(i).drop_first() =~= s.skip(i + 1));
}

/// Extending the scanned prefix by one element: `s.take(i + 1)` is
/// `s.take(i)` with `s[i]` appended.
pub proof fn lemma_take_step<T>(s: Seq<T>, i: int)
    requires
        0 <= i < s.len(),
    ensures
        s.take(i + 1).drop_last() == s.take(i),
        s.take(i + 1).last() == s[i],
        s.take(i + 1) == s.take(i).push(s[i]),
{
    assert(s.take(i + 1).drop_last() =~= s.take(i));
    assert(s.take(i + 1) =~= s.take(i).push(s[i]));
}


/// A filter whose predicate rejects every element of `s` keeps nothing.
pub proof fn lemma_filter_none<T>(s: Seq<T>, p: spec_fn(T) -> bool)
    requires
        forall|i: int| 0 <= i < s.len() ==> !p(s[i]),
    ensures
        s.filter(p) == Seq::<T>::empty(),
    decreases s.len(),
{
    reveal(Seq::filter);
    if s.len() == 0 {
        assert(s.filter(p) =~= Seq::<T>::empty());
    } else {
        let d = s.drop_last();
        lemma_filter_none(d, p);
        assert(!p(s.last()));
    }
}

/// A filter whose predicate accepts every element of `s` keeps all of `s`.
pub proof fn lemma_filter_all<T>(s: Seq<T>, p: spec_fn(T) -> bool)
    requires
        forall|i: int| 0 <= i < s.len() ==> p(s[i]),
    ensures
        s.filter(p) == s,
    decreases s.len(),
{
    reveal(Seq::filter);
    if s.len() == 0 {
        assert(s.filter(p) =~= s);
    } else {
        let d = s.drop_last();
        lemma_filter_all(d, p);
        assert(p(s.last()));
        assert(s.filter(p) =~= s);
    }
}

} // verus!
