use rand::Rng;
use vstd::prelude::*;

verus! {

/// A random byte drawn uniformly from `low .. high` by `rand`'s thread-local
/// generator (`rand::Rng::gen_range` on `rand::thread_rng()`).
///
/// Trusted: `gen_range` returns `low` plus a value below `high - low`, so the
/// result lies in `low .. high`; which value comes back is left open.
#[verifier::external_body]
pub(crate) fn random_in_range(low: u8, high: u8) -> (value: u8)
    requires
        low < high,
    ensures
        low <= value < high,
{
    rand::thread_rng().gen_range(low, high)
}

} // verus!
