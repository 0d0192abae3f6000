//! What sequences hold after a push or a filter.

use vstd::prelude::*;

verus! {

/// Pushing an item adds it, and nothing else, to what a sequence holds.
pub proof fn lemma_push_holds<A>(s: Seq<A>, item: A)
    ensures
        forall|x: A| #[trigger] s.push(item).contains(x) <==> s.contains(x) || x == item,
        s.no_duplicates() && !s.contains(item) ==> s.push(item).no_duplicates(),
{
    assert forall|x: A| s.contains(x) || x == item implies #[trigger] s.push(item).contains(x) by {
        if s.contains(x) {
            let i = choose|i: int| 0 <= i < s.len() && s[i] == x;
            assert(s.push(item)[i] == x);
        } else {
            assert(s.push(item)[s.len() as int] == x);
        }
    }
}

/// A filter lets through what it keeps, and nothing else.
pub proof fn lemma_filter_holds<A>(s: Seq<A>, keep: spec_fn(A) -> bool)
    ensures
        forall|x: A| #[trigger] s.filter(keep).contains(x) <==> s.contains(x) && keep(x),
        s.no_duplicates() ==> s.filter(keep).no_duplicates(),
    decreases s.len(),
{
    reveal(Seq::filter);
    if s.len() > 0 {
        let rest = s.drop_last();
        lemma_filter_holds(rest, keep);
        lemma_push_holds(rest, s.last());
        lemma_push_holds(rest.filter(keep), s.last());
        assert(s =~= rest.push(s.last()));
        if s.no_duplicates() {
            assert(!rest.contains(s.last()));
            assert(rest.no_duplicates());
        }
    }
}

/// A filter shortens a sequence exactly when there is something that it does not keep.
pub proof fn lemma_filter_shortens<A>(s: Seq<A>, keep: spec_fn(A) -> bool)
    ensures
        s.filter(keep).len() <= s.len(),
        s.filter(keep).len() == s.len() <==> forall|i: int|
            0 <= i < s.len() ==> keep(#[trigger] s[i]),
    decreases s.len(),
{
    reveal(Seq::filter);
    if s.len() > 0 {
        let rest = s.drop_last();
        lemma_filter_shortens(rest, keep);
        if s.filter(keep).len() == s.len() {
            assert forall|i: int| 0 <= i < s.len() implies keep(#[trigger] s[i]) by {
                if i < rest.len() {
                    assert(rest[i] == s[i]);
                }
            }
        } else if keep(s.last()) {
            let i = choose|i: int| 0 <= i < rest.len() && !keep(#[trigger] rest[i]);
            assert(!keep(s[i]));
        } else {
            assert(!keep(s[s.len() - 1]));
        }
    }
}

} // verus!
