//! Pure computations behind the pool queries: the querying itself happens
//! at the host boundary, which hands the pool's holdings in as plain
//! amounts.

use vstd::prelude::*;
use crate::rate::Rate;

verus! {

/// The price of the pool's second asset in units of its first: the exact
/// ratio of the two holdings.
pub fn pool_ratio(stable_in_pool: u64, luna_in_pool: u64) -> (r: Rate)
    requires
        luna_in_pool >= 1,
    ensures
        r == (Rate { num: stable_in_pool, den: luna_in_pool }),
        r.wf(),
{
    Rate::from_ratio(stable_in_pool, luna_in_pool)
}

} // verus!
