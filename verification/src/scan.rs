//! Finding the first element of a sequence that satisfies a predicate.
//!
//! The router picks the first registered pattern that matches a topic, the
//! session builder fails with the first slot error, and readiness
//! aggregation reports the first slot failure: all three are instances of
//! one spec function, defined here together with its characterisation.

use vstd::prelude::*;

verus! {

/// Index of the first element of `s` at position `i` or later that
/// satisfies `p`, if any.
pub open spec fn first_where_at<T>(s: Seq<T>, p: spec_fn(T) -> bool, i: int) -> Option<int>
    decreases s.len() - i,
{
    if i < 0 || i >= s.len() {
        None
    } else if p(s[i]) {
        Some(i)
    } else {
        first_where_at(s, p, i + 1)
    }
}

/// Index of the first element of `s` that satisfies `p`, if any.
pub open spec fn first_where<T>(s: Seq<T>, p: spec_fn(T) -> bool) -> Option<int> {
    first_where_at(s, p, 0)
}

/// What `first_where_at` returns: `None` means no element from `i` on
/// satisfies `p`; `Some(k)` means `s[k]` is the first that does.
pub proof fn lemma_first_where_at<T>(s: Seq<T>, p: spec_fn(T) -> bool, i: int)
    requires
        0 <= i <= s.len(),
    ensures
        match first_where_at(s, p, i) {
            None => forall|j: int| i <= j < s.len() ==> !p(#[trigger] s[j]),
            Some(k) => {
                &&& i <= k < s.len()
                &&& p(s[k])
                &&& forall|j: int| i <= j < k ==> !p(#[trigger] s[j])
            },
        },
    decreases s.len() - i,
{
    if i < s.len() && !p(s[i]) {
        lemma_first_where_at(s, p, i + 1);
    }
}

/// The converse: an element that satisfies `p` with none before it is the
/// one `first_where` finds.
pub proof fn lemma_first_where_is<T>(s: Seq<T>, p: spec_fn(T) -> bool, k: int)
    requires
        0 <= k < s.len(),
        p(s[k]),
        forall|j: int| 0 <= j < k ==> !p(#[trigger] s[j]),
    ensures
        first_where(s, p) == Some(k),
{
    lemma_first_where_from(s, p, 0, k);
}

proof fn lemma_first_where_from<T>(s: Seq<T>, p: spec_fn(T) -> bool, i: int, k: int)
    requires
        0 <= i <= k < s.len(),
        p(s[k]),
        forall|j: int| i <= j < k ==> !p(#[trigger] s[j]),
    ensures
        first_where_at(s, p, i) == Some(k),
    decreases k - i,
{
    if i < k {
        lemma_first_where_from(s, p, i + 1, k);
    }
}

} // verus!
