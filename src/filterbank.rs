//! Dimension rules of the triangular mel filterbank.
use vstd::prelude::*;

verus! {

/// The number of triangular filters that `num_edges` filter edge frequencies
/// define: each filter spans three consecutive edges, so there is one filter
/// fewer than the edges minus one. `None` when the edges define no filter.
pub fn mel_filter_count(num_edges: usize) -> (r: Option<usize>)
    ensures
        num_edges >= 3 <==> r is Some,
        r matches Some(n) ==> n == num_edges - 2,
{
    if num_edges >= 3 {
        Some(num_edges - 2)
    } else {
        None
    }
}

} // verus!
