//! First-match search over a sequence, with the small facts the rest of the
//! crate needs about it.
//!
//! Every store in this crate is an append/update-only vector searched from the
//! front.  `find_by` is the single specification of that search; the lemmas
//! here say how it behaves under the only mutations the crate performs:
//! updating an element in place without changing its key, and pushing a new
//! element at the end.

use vstd::prelude::*;

verus! {

/// Index of the first element at or after position `i` satisfying `p`,
/// or `-1` when none does.
pub open spec fn find_by<T>(s: Seq<T>, p: spec_fn(T) -> bool, i: int) -> int
    decreases s.len() - i,
{
    if i < 0 || i >= s.len() {
        -1
    } else if p(s[i]) {
        i
    } else {
        find_by(s, p, i + 1)
    }
}

/// A successful search lands in range, on a matching element, and skipped
/// only non-matching elements on the way.
pub proof fn lemma_find_by_found<T>(s: Seq<T>, p: spec_fn(T) -> bool, i: int)
    requires
        find_by(s, p, i) >= 0,
    ensures
        i <= find_by(s, p, i) < s.len(),
        p(s[find_by(s, p, i)]),
        forall|j: int| i <= j < find_by(s, p, i) ==> !p(s[j]),
    decreases s.len() - i,
{
    if i < 0 || i >= s.len() {
    } else if p(s[i]) {
    } else {
        lemma_find_by_found(s, p, i + 1);
    }
}

/// When nothing at or after `i` matches, the search fails.
pub proof fn lemma_find_by_absent<T>(s: Seq<T>, p: spec_fn(T) -> bool, i: int)
    requires
        forall|j: int| i <= j < s.len() ==> !p(s[j]),
    ensures
        find_by(s, p, i) == -1,
    decreases s.len() - i,
{
    if i < 0 || i >= s.len() {
    } else {
        lemma_find_by_absent(s, p, i + 1);
    }
}

/// Replacing an element without changing whether it matches leaves the
/// search result alone.
pub proof fn lemma_find_by_update<T>(s: Seq<T>, k: int, v: T, p: spec_fn(T) -> bool, i: int)
    requires
        0 <= k < s.len(),
        p(v) == p(s[k]),
    ensures
        find_by(s.update(k, v), p, i) == find_by(s, p, i),
    decreases s.len() - i,
{
    if i < 0 || i >= s.len() {
    } else {
        lemma_find_by_update(s, k, v, p, i + 1);
    }
}

/// Pushing onto the end never disturbs an already successful search.
pub proof fn lemma_find_by_push_found<T>(s: Seq<T>, v: T, p: spec_fn(T) -> bool, i: int)
    requires
        find_by(s, p, i) >= 0,
    ensures
        find_by(s.push(v), p, i) == find_by(s, p, i),
    decreases s.len() - i,
{
    if i < 0 || i >= s.len() {
    } else if p(s[i]) {
    } else {
        lemma_find_by_push_found(s, v, p, i + 1);
    }
}

/// After a failed search, pushing decides the result: the new element is
/// found at the end exactly when it matches.
pub proof fn lemma_find_by_push_absent<T>(s: Seq<T>, v: T, p: spec_fn(T) -> bool, i: int)
    requires
        0 <= i <= s.len(),
        find_by(s, p, i) == -1,
    ensures
        find_by(s.push(v), p, i) == (if p(v) {
            s.len() as int
        } else {
            -1
        }),
    decreases s.len() - i,
{
    if i == s.len() {
        assert(find_by(s.push(v), p, i + 1) == -1);
        assert(s.push(v)[i] == v);
    } else {
        lemma_find_by_push_absent(s, v, p, i + 1);
    }
}

/// A search returns either a valid index or exactly `-1`, and a failed
/// search skipped only non-matching elements.
pub proof fn lemma_find_by_miss<T>(s: Seq<T>, p: spec_fn(T) -> bool, i: int)
    requires
        0 <= i,
        find_by(s, p, i) < 0,
    ensures
        find_by(s, p, i) == -1,
        forall|j: int| i <= j < s.len() ==> !p(s[j]),
    decreases s.len() - i,
{
    if i < 0 || i >= s.len() {
    } else {
        assert(!p(s[i]));
        lemma_find_by_miss(s, p, i + 1);
    }
}

} // verus!
