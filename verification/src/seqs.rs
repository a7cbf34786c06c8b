//! Sequence helpers shared by the collectors: a collector walks a list and
//! appends what each element says, so its contract is a flattening.
use vstd::prelude::*;

verus! {

/// Everything `f` says about the elements of `s`, in order.
pub open spec fn flat_map<A, B>(s: Seq<A>, f: spec_fn(A) -> Seq<B>) -> Seq<B>
    decreases s.len(),
{
    if s.len() == 0 {
        Seq::empty()
    } else {
        flat_map(s.drop_last(), f) + f(s.last())
    }
}

/// One more element of a prefix adds exactly what that element says.
pub proof fn lemma_flat_map_step<A, B>(s: Seq<A>, f: spec_fn(A) -> Seq<B>, i: int)
    requires
        0 <= i < s.len(),
    ensures
        flat_map(s.take(i + 1), f) == flat_map(s.take(i), f) + f(s[i]),
{
    assert(s.take(i + 1).drop_last() =~= s.take(i));
}

/// The whole prefix is the sequence.
pub proof fn lemma_flat_map_all<A, B>(s: Seq<A>, f: spec_fn(A) -> Seq<B>)
    ensures
        flat_map(s.take(s.len() as int), f) == flat_map(s, f),
{
    assert(s.take(s.len() as int) =~= s);
}

/// Nothing is said about an empty prefix.
pub proof fn lemma_flat_map_empty<A, B>(s: Seq<A>, f: spec_fn(A) -> Seq<B>)
    ensures
        flat_map(s.take(0), f) == Seq::<B>::empty(),
{
}

/// Where each element says exactly one thing, the whole says one thing per
/// element, in order.
pub proof fn lemma_flat_map_singletons<A, B>(s: Seq<A>, f: spec_fn(A) -> Seq<B>)
    requires
        forall|x: A| #[trigger] f(x).len() == 1,
    ensures
        flat_map(s, f).len() == s.len(),
        forall|k: int| 0 <= k < s.len() ==> #[trigger] flat_map(s, f)[k] == f(s[k])[0],
    decreases s.len(),
{
    if s.len() > 0 {
        let t = s.drop_last();
        lemma_flat_map_singletons(t, f);
        assert(f(s.last()).len() == 1);
        assert forall|k: int| 0 <= k < s.len() implies #[trigger] flat_map(s, f)[k] == f(s[k])[0] by {
            if k < t.len() {
                assert(flat_map(s, f)[k] == flat_map(t, f)[k]);
                assert(t[k] == s[k]);
            } else {
                assert(s[k] == s.last());
            }
        }
    }
}

/// A string option by its view.
pub open spec fn opt_view(s: Option<String>) -> Option<Seq<char>> {
    match s {
        Some(v) => Some(v@),
        None => None,
    }
}

} // verus!
