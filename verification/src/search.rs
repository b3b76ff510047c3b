//! Finding the first element of a sequence that has some property.

use vstd::prelude::*;

verus! {

/// The first index below `bound` at which `hits` is true.
pub open spec fn first_true_below(hits: Seq<bool>, bound: int) -> Option<int>
    decreases bound,
{
    if bound <= 0 {
        None
    } else {
        match first_true_below(hits, bound - 1) {
            Some(i) => Some(i),
            None => if hits[bound - 1] {
                Some(bound - 1)
            } else {
                None
            },
        }
    }
}

/// The first index at which `hits` is true.
pub open spec fn first_true(hits: Seq<bool>) -> Option<int> {
    first_true_below(hits, hits.len() as int)
}

/// `first_true_below` gives the least index that is true, and gives none
/// only if no index below the bound is true.
pub proof fn lemma_first_true_below(hits: Seq<bool>, bound: int)
    requires
        bound <= hits.len(),
    ensures
        match first_true_below(hits, bound) {
            Some(i) => {
                &&& 0 <= i < bound
                &&& hits[i]
                &&& forall|j: int| 0 <= j < i ==> !hits[j]
            },
            None => forall|j: int| 0 <= j < bound ==> !hits[j],
        },
    decreases bound,
{
    if bound > 0 {
        lemma_first_true_below(hits, bound - 1);
    }
}

/// The same, for the whole sequence.
pub proof fn lemma_first_true(hits: Seq<bool>)
    ensures
        match first_true(hits) {
            Some(i) => {
                &&& 0 <= i < hits.len()
                &&& hits[i]
                &&& forall|j: int| 0 <= j < i ==> !hits[j]
            },
            None => forall|j: int| 0 <= j < hits.len() ==> !hits[j],
        },
{
    lemma_first_true_below(hits, hits.len() as int);
}

/// An index that is true, with none true before it, is the first for every
/// larger bound.
pub proof fn lemma_first_true_found(hits: Seq<bool>, at: int, bound: int)
    requires
        0 <= at < bound <= hits.len(),
        hits[at],
        first_true_below(hits, at) is None,
    ensures
        first_true_below(hits, bound) == Some(at),
    decreases bound - at,
{
    if bound > at + 1 {
        lemma_first_true_found(hits, at, bound - 1);
    }
}

} // verus!
