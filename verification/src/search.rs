//! First-match search over sequences: the resolution algorithm and the
//! source aggregator both select the first element of a sequence that
//! satisfies a predicate, so the shared spec function and its lemmas live
//! here.

use vstd::prelude::*;

verus! {

/// Index of the first element of `s` satisfying `pred`, if any.
pub open spec fn find_first<T>(s: Seq<T>, pred: spec_fn(T) -> bool) -> Option<int>
    decreases s.len(),
{
    if s.len() == 0 {
        None
    } else if pred(s[0]) {
        Some(0)
    } else {
        match find_first(s.drop_first(), pred) {
            None => None,
            Some(i) => Some(i + 1),
        }
    }
}

/// What a `find_first` result means: a found index is in range, satisfies
/// the predicate, and nothing before it does; `None` means nothing does.
pub proof fn lemma_find_first_props<T>(s: Seq<T>, pred: spec_fn(T) -> bool)
    ensures
        match find_first(s, pred) {
            None => forall|j: int| 0 <= j < s.len() ==> !pred(s[j]),
            Some(i) => 0 <= i < s.len() && pred(s[i]) && (forall|j: int|
                0 <= j < i ==> !pred(s[j])),
        },
    decreases s.len(),
{
    if s.len() > 0 && !pred(s[0]) {
        lemma_find_first_props(s.drop_first(), pred);
        assert forall|j: int| 1 <= j < s.len() implies s.drop_first()[j - 1] == s[j] by {}
    }
}

/// A first match determines `find_first`: if `i` satisfies the predicate
/// and no earlier index does, the search returns exactly `i`.
pub proof fn lemma_find_first_is<T>(s: Seq<T>, pred: spec_fn(T) -> bool, i: int)
    requires
        0 <= i < s.len(),
        pred(s[i]),
        forall|j: int| 0 <= j < i ==> !pred(s[j]),
    ensures
        find_first(s, pred) == Some(i),
    decreases s.len(),
{
    if i > 0 {
        lemma_find_first_is(s.drop_first(), pred, i - 1);
    }
}

/// If no element satisfies the predicate, the search finds nothing.
pub proof fn lemma_find_first_none<T>(s: Seq<T>, pred: spec_fn(T) -> bool)
    requires
        forall|j: int| 0 <= j < s.len() ==> !pred(s[j]),
    ensures
        find_first(s, pred) is None,
    decreases s.len(),
{
    if s.len() > 0 {
        lemma_find_first_none(s.drop_first(), pred);
    }
}

} // verus!
