//! The one randomness capability the simulation consumes: a uniform integer
//! draw, used for identifier fractions and for randomized spawn placement.

use vstd::prelude::*;

verus! {

/// Relies on `rand::random_range` over `l..=b`: a uniform draw from the
/// inclusive range, which panics only when the range is empty (`l > b`).
#[verifier::external_body]
pub fn rand_int(l: i64, b: i64) -> (r: i64)
    requires
        l <= b,
    ensures
        l <= r <= b,
{
    rand::random_range(l..=b)
}

} // verus!
