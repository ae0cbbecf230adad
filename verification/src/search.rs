//! Finding the first element of a sequence that has a property.
use vstd::prelude::*;

verus! {

/// The index of the first element of `s` at or after `from` that has the
/// property `p`, if there is one.
pub open spec fn first_from<A>(s: Seq<A>, p: spec_fn(A) -> bool, from: int) -> Option<int>
    decreases s.len() - from,
{
    if from < 0 || from >= s.len() {
        None
    } else if p(s[from]) {
        Some(from)
    } else {
        first_from(s, p, from + 1)
    }
}

/// The index of the first element of `s` that has the property `p`, if there
/// is one.
pub open spec fn first_where<A>(s: Seq<A>, p: spec_fn(A) -> bool) -> Option<int> {
    first_from(s, p, 0)
}

/// What `first_from` finds has the property, and nothing between `from` and it
/// has; where it finds nothing, nothing from `from` on has the property.
pub proof fn lemma_first_from<A>(s: Seq<A>, p: spec_fn(A) -> bool, from: int)
    requires
        0 <= from,
    ensures
        match first_from(s, p, from) {
            Some(k) => {
                &&& from <= k < s.len()
                &&& p(s[k])
                &&& forall|j: int| from <= j < k ==> !p(#[trigger] s[j])
            },
            None => forall|j: int| from <= j < s.len() ==> !p(#[trigger] s[j]),
        },
    decreases s.len() - from,
{
    if from < s.len() && !p(s[from]) {
        lemma_first_from(s, p, from + 1);
    }
}

/// What `first_where` finds is the first element with the property; where it
/// finds nothing, no element has the property.
pub proof fn lemma_first_where<A>(s: Seq<A>, p: spec_fn(A) -> bool)
    ensures
        match first_where(s, p) {
            Some(k) => {
                &&& 0 <= k < s.len()
                &&& p(s[k])
                &&& forall|j: int| 0 <= j < k ==> !p(#[trigger] s[j])
            },
            None => forall|j: int| 0 <= j < s.len() ==> !p(#[trigger] s[j]),
        },
{
    lemma_first_from(s, p, 0);
}

/// An element with the property, before which no element has it, is what
/// `first_where` finds.
pub proof fn lemma_first_where_is<A>(s: Seq<A>, p: spec_fn(A) -> bool, k: int)
    requires
        0 <= k < s.len(),
        p(s[k]),
        forall|j: int| 0 <= j < k ==> !p(#[trigger] s[j]),
    ensures
        first_where(s, p) == Some(k),
{
    lemma_first_from(s, p, 0);
}

/// While nothing before `from` has the property, the search from `from` finds
/// what the search from the start finds.
pub proof fn lemma_first_from_skips<A>(s: Seq<A>, p: spec_fn(A) -> bool, from: int)
    requires
        0 <= from <= s.len(),
        forall|j: int| 0 <= j < from ==> !p(#[trigger] s[j]),
    ensures
        first_where(s, p) == first_from(s, p, from),
    decreases from,
{
    if from > 0 {
        lemma_first_from_skips(s, p, from - 1);
    }
}

} // verus!
