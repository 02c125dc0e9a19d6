//! The random source: `rand`'s thread-local generator. Nothing here is proved;
//! each item states what the rest of the crate takes on trust.

use rand::Rng;
use vstd::prelude::*;

verus! {

/// `rand::rngs::ThreadRng`, a handle to the generator of the current thread.
/// Its state is not modelled.
#[verifier::external_type_specification]
#[verifier::external_body]
pub struct ExThreadRng(rand::rngs::ThreadRng);

/// `rand::thread_rng` hands out the handle. Nothing is claimed of it. (It
/// panics only if the system cannot seed the generator.)
pub assume_specification[ rand::thread_rng ]() -> (rng: rand::rngs::ThreadRng);

/// `Rng::gen_range` on the closed range `low..=high`. It panics on an empty
/// range, so `low <= high` is required; the sample lies in the range. Which
/// value comes is not determined: two calls may differ.
#[verifier::external_body]
pub(crate) fn gen_range_inclusive(rng: &mut rand::rngs::ThreadRng, low: i32, high: i32) -> (n: i32)
    requires
        low <= high,
    ensures
        low <= n <= high,
{
    rng.gen_range(low..=high)
}

} // verus!
