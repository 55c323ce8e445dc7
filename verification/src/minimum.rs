//! The first smallest entry of a sequence of keys.
//!
//! Every choice of the engine (nearest palette entry, darkest sub-pixel, best
//! glyph) is a scan that keeps the first entry with the smallest key. This
//! module states that notion once.

use vstd::prelude::*;

verus! {

/// Whether `i` is the position that a left-to-right scan with a strict
/// comparison settles on: no admitted key is smaller, and every admitted key
/// before it is strictly larger. The position `skip`, if any, is not admitted.
pub open spec fn is_first_min(keys: Seq<int>, skip: Option<int>, i: int) -> bool {
    &&& 0 <= i < keys.len()
    &&& skip != Some(i)
    &&& forall|j: int| 0 <= j < keys.len() && skip != Some(j) ==> keys[i] <= #[trigger] keys[j]
    &&& forall|j: int| 0 <= j < i && skip != Some(j) ==> keys[i] < #[trigger] keys[j]
}

/// The position of the first smallest admitted key.
pub open spec fn first_min(keys: Seq<int>, skip: Option<int>) -> int {
    choose|i: int| is_first_min(keys, skip, i)
}

/// At most one position is the first minimum.
pub proof fn lemma_first_min_unique(keys: Seq<int>, skip: Option<int>, i: int, j: int)
    requires
        is_first_min(keys, skip, i),
        is_first_min(keys, skip, j),
    ensures
        i == j,
{
    if i < j {
        assert(keys[j] < keys[i]);
        assert(keys[i] <= keys[j]);
    } else if j < i {
        assert(keys[i] < keys[j]);
        assert(keys[j] <= keys[i]);
    }
}

/// A position shown to be the first minimum is the one `first_min` names.
pub proof fn lemma_first_min_is(keys: Seq<int>, skip: Option<int>, i: int)
    requires
        is_first_min(keys, skip, i),
    ensures
        first_min(keys, skip) == i,
{
    lemma_first_min_unique(keys, skip, i, first_min(keys, skip));
}

/// The first minimum over the first `n` keys, for the induction below.
spec fn is_first_min_upto(keys: Seq<int>, skip: Option<int>, n: int, i: int) -> bool {
    &&& 0 <= i < n
    &&& skip != Some(i)
    &&& forall|j: int| 0 <= j < n && skip != Some(j) ==> keys[i] <= #[trigger] keys[j]
    &&& forall|j: int| 0 <= j < i && skip != Some(j) ==> keys[i] < #[trigger] keys[j]
}

proof fn lemma_first_min_upto(keys: Seq<int>, skip: Option<int>, n: int, k: int) -> (i: int)
    requires
        0 <= k < n <= keys.len(),
        skip != Some(k),
    ensures
        is_first_min_upto(keys, skip, n, i),
    decreases n,
{
    if k == n - 1 {
        if exists|m: int| 0 <= m < n - 1 && skip != Some(m) {
            let m = choose|m: int| 0 <= m < n - 1 && skip != Some(m);
            let b = lemma_first_min_upto(keys, skip, n - 1, m);
            if keys[k] < keys[b] {
                k
            } else {
                b
            }
        } else {
            k
        }
    } else {
        let b = lemma_first_min_upto(keys, skip, n - 1, k);
        if skip != Some(n - 1) && keys[n - 1] < keys[b] {
            n - 1
        } else {
            b
        }
    }
}

/// Whenever some position is admitted, the first minimum exists.
pub proof fn lemma_first_min_exists(keys: Seq<int>, skip: Option<int>, k: int)
    requires
        0 <= k < keys.len(),
        skip != Some(k),
    ensures
        is_first_min(keys, skip, first_min(keys, skip)),
{
    let i = lemma_first_min_upto(keys, skip, keys.len() as int, k);
    assert(is_first_min(keys, skip, i));
}

} // verus!
