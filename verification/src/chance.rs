//! The one place where the engine asks for a random number.

use vstd::prelude::*;

verus! {

/// A random integer from `low` up to, but not including, `high`.
///
/// Calls `rand::Rng::gen_range` with the range `low..high` on the generator
/// that `rand::thread_rng` returns. Trusted, not proved: the result lies in
/// the range. `gen_range` panics on an empty range, which `requires` rules
/// out; `thread_rng` panics if the operating system cannot seed the
/// generator, which no argument can rule out. Two calls with the same bounds
/// may give different results, so nothing more is said of the value.
#[verifier::external_body]
pub(crate) fn random_in(low: usize, high: usize) -> (sample: usize)
    requires
        low < high,
    ensures
        low <= sample < high,
{
    rand::Rng::gen_range(&mut rand::thread_rng(), low..high)
}

} // verus!
