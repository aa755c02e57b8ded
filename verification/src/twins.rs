//! Searching a vector for a pair of identical entries ("twins").
//!
//! The scan runs over all index pairs `(i, j)` with `i < j`, outer index
//! first, and stops at the first pair whose entries are equal.

use vstd::prelude::*;

verus! {

/// Some pair of positions in `s` holds the same value twice.
pub open spec fn has_twin(s: Seq<u32>) -> bool {
    exists|p: int, q: int| 0 <= p < q < s.len() && s[p] == s[q]
}

/// No pair `(p, q)` that the scan visits before `(i, j)` is a twin:
/// every pair with a smaller outer index, and every pair with the same
/// outer index and a smaller inner index, holds two distinct values.
pub open spec fn twin_free_before(s: Seq<u32>, i: int, j: int) -> bool {
    forall|p: int, q: int|
        0 <= p < q < s.len() && (p < i || (p == i && q < j)) ==> s[p] != s[q]
}

/// The first pair of positions holding the same value twice, in scan
/// order, or `None` when all entries are pairwise distinct.
pub fn first_twin(values: &Vec<u32>) -> (r: Option<(usize, usize)>)
    ensures
        match r {
            Some(pair) => {
                &&& pair.0 < pair.1 < values@.len()
                &&& values@[pair.0 as int] == values@[pair.1 as int]
                &&& twin_free_before(values@, pair.0 as int, pair.1 as int)
            },
            None => !has_twin(values@),
        },
{
    let n = values.len();
    let mut i: usize = 0;
    while i < n
        invariant
            n == values@.len(),
            i <= n,
            twin_free_before(values@, i as int, i as int + 1),
        decreases n - i,
    {
        let mut j: usize = i + 1;
        while j < n
            invariant
                n == values@.len(),
                i < j <= n,
                twin_free_before(values@, i as int, j as int),
            decreases n - j,
        {
            if values[i] == values[j] {
                return Some((i, j));
            }
            j = j + 1;
        }
        i = i + 1;
    }
    None
}

} // verus!
