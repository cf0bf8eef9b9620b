//! Cyclic navigation over a fixed-size collection: moving to the next
//! or previous position wraps around at the ends.

use vstd::prelude::*;

verus! {

/// The position after moving one step forward, wrapping to 0 past the
/// end.
pub open spec fn cycle_next(i: int, len: int) -> int {
    if i + 1 >= len {
        0
    } else {
        i + 1
    }
}

/// The position after moving one step backward, wrapping to the last
/// position before 0.
pub open spec fn cycle_prev(i: int, len: int) -> int {
    if i <= 0 {
        len - 1
    } else {
        i - 1
    }
}

/// The position after `n` forward steps.
pub open spec fn iter_next(i: int, len: int, n: nat) -> int
    decreases n,
{
    if n == 0 {
        i
    } else {
        cycle_next(iter_next(i, len, (n - 1) as nat), len)
    }
}

/// While no wrap has happened, `n` forward steps add `n`; after one
/// wrap they add `n - len`. Both positions stay in range as long as
/// `n` does not exceed `len`.
pub proof fn lemma_iter_next_unrolled(i: int, len: int, n: nat)
    requires
        0 <= i < len,
        n <= len,
    ensures
        iter_next(i, len, n) == if i + n < len {
            i + n
        } else {
            i + n - len
        },
        0 <= iter_next(i, len, n) < len,
    decreases n,
{
    if n > 0 {
        lemma_iter_next_unrolled(i, len, (n - 1) as nat);
    }
}

/// Cyclic navigation is a round trip: moving forward as many times as
/// the collection is long returns to the original position.
pub proof fn lemma_cycle_identity(i: int, len: int)
    requires
        0 <= i < len,
    ensures
        iter_next(i, len, len as nat) == i,
{
    lemma_iter_next_unrolled(i, len, len as nat);
}

/// `cycle_next` on machine integers.
pub fn next_index(i: usize, len: usize) -> (r: usize)
    requires
        i < len,
    ensures
        r as int == cycle_next(i as int, len as int),
{
    if i + 1 >= len {
        0
    } else {
        i + 1
    }
}

/// `cycle_prev` on machine integers.
pub fn prev_index(i: usize, len: usize) -> (r: usize)
    requires
        i < len,
    ensures
        r as int == cycle_prev(i as int, len as int),
{
    if i == 0 {
        len - 1
    } else {
        i - 1
    }
}

} // verus!
