//! Going round a fixed number of positions, starting wherever the last
//! round stopped, so that every position gets its turn.

use vstd::prelude::*;

verus! {

/// The position of the `k`-th candidate of a round over `n` positions that
/// starts at position `origin`.
pub open spec fn slot_at(origin: int, k: int, n: int) -> int {
    if origin + k < n {
        origin + k
    } else {
        origin + k - n
    }
}

/// Where a round over `n` positions starts when the cursor stands at
/// `cursor`: at the cursor, or at the first position if the cursor has run
/// off the end.
pub open spec fn origin_of(cursor: usize, n: nat) -> int {
    if cursor < n {
        cursor as int
    } else {
        0
    }
}

/// A round that starts inside the range visits every position exactly
/// once: each position is the candidate of exactly one step.
pub proof fn lemma_round_visits_all(origin: int, n: int, position: int)
    requires
        0 <= origin < n,
        0 <= position < n,
    ensures
        ({
            let k = if position >= origin {
                position - origin
            } else {
                position + n - origin
            };
            &&& 0 <= k < n
            &&& slot_at(origin, k, n) == position
            &&& forall|j: int| 0 <= j < n && slot_at(origin, j, n) == position ==> j == k
        }),
{
}

} // verus!
