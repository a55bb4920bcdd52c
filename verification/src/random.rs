//! Chance. Every random decision of the game is one call into the `rand`
//! crate through this module; what the rules do with a drawn value is
//! verified for every value that the call may return.

use rand::rngs::ThreadRng;
use rand::seq::IndexedRandom;
use rand::Rng;
use vstd::prelude::*;

verus! {

/// `rand::rngs::ThreadRng`, the handle to the generator of the current
/// thread. Its state is hidden: no contract speaks of what it will return.
#[verifier::external_type_specification]
#[verifier::external_body]
pub struct ExThreadRng(ThreadRng);

/// `rand::rng`: returns a handle to the thread-local generator, which is
/// seeded from the operating system on first use, and panics if the system
/// gives no seed. Nothing is claimed of the handle.
pub assume_specification[ rand::rng ]() -> (generator: ThreadRng);

/// `Rng::random_range` on the inclusive range `low..=high`: the value drawn
/// lies in the range. The call panics on an empty range, which `requires`
/// leaves out.
#[verifier::external_body]
pub(crate) fn random_in(generator: &mut ThreadRng, low: u32, high: u32) -> (value: u32)
    requires
        low <= high,
    ensures
        low <= value <= high,
{
    generator.random_range(low..=high)
}

/// `IndexedRandom::choose` on a list of names: `None` for an empty list,
/// else a reference to one of its entries.
#[verifier::external_body]
pub(crate) fn pick_name<'a>(generator: &mut ThreadRng, pool: &'a Vec<String>) -> (picked: Option<
    &'a String,
>)
    ensures
        picked is None <==> pool.len() == 0,
        picked is Some ==> exists|i: int| 0 <= i < pool.len() && pool[i] == *picked->0,
{
    pool.choose(generator)
}

} // verus!
