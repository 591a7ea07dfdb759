use vstd::prelude::*;

use rand::seq::SliceRandom;
use rand::Rng;

verus! {

/// Draws a uniformly distributed index strictly below `bound`.
///
/// Relies on rand::Rng::gen_range, called on the range `0..bound`: the
/// drawn value lies inside that range, hence strictly below `bound`.
/// The call rejects an empty range, which `bound >= 1` rules out.
#[verifier::external_body]
pub(crate) fn random_index(bound: usize) -> (r: usize)
    requires
        bound >= 1,
    ensures
        r < bound,
{
    rand::thread_rng().gen_range(0..bound)
}

/// Reorders the elements of `v` in place, as a uniformly random
/// permutation.
///
/// Relies on rand::seq::SliceRandom::shuffle: it reorders the slice in
/// place purely by swapping elements, so afterwards the slice holds
/// exactly the same elements, the same number of times, in some order.
#[verifier::external_body]
pub(crate) fn shuffle_in_place(v: &mut Vec<String>)
    ensures
        final(v)@.to_multiset() == old(v)@.to_multiset(),
        final(v)@.len() == old(v)@.len(),
{
    v.as_mut_slice().shuffle(&mut rand::thread_rng());
}

} // verus!
