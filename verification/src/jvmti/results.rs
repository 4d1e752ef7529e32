//! Putting together what the tool interface hands back in parallel arrays.
use vstd::prelude::*;

verus! {

/// How many pairs `pair_results` makes of `count` results: one fewer than
/// there are, and none of none.
pub open spec fn paired_len(count: i32) -> nat {
    if count >= 1 {
        (count - 1) as nat
    } else {
        0
    }
}

/// Pairs each object with the tag at the same place, for all of the
/// `count` results but the last, which is left out.
pub fn pair_results<A: Copy, B: Copy>(objects: &[A], tags: &[B], count: i32) -> (pairs: Vec<
    (A, B),
>)
    requires
        paired_len(count) <= objects@.len(),
        paired_len(count) <= tags@.len(),
    ensures
        pairs@.len() == paired_len(count),
        forall|i: int| 0 <= i < pairs@.len() ==> pairs@[i] == (objects@[i], tags@[i]),
{
    let mut pairs: Vec<(A, B)> = Vec::new();
    if count < 1 {
        return pairs;
    }
    let n: usize = (count - 1) as usize;
    let mut i: usize = 0;
    while i < n
        invariant
            n == paired_len(count),
            n <= objects@.len(),
            n <= tags@.len(),
            i <= n,
            pairs@.len() == i,
            forall|j: int| 0 <= j < i ==> pairs@[j] == (objects@[j], tags@[j]),
        decreases n - i,
    {
        pairs.push((objects[i], tags[i]));
        i += 1;
    }
    pairs
}

} // verus!
