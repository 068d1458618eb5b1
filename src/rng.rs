use oorandom::Rand32;
use vstd::prelude::*;

verus! {

#[verifier::external_type_specification]
#[verifier::external_body]
pub struct ExRand32(oorandom::Rand32);

/// Relies on oorandom::Rand32::new to seed a generator; nothing is known of
/// the state it starts in.
pub assume_specification[ oorandom::Rand32::new ](seed: u64) -> oorandom::Rand32;

/// Relies on oorandom::Rand32::rand_range: on the non-empty range
/// `0..bound` it returns a number of that range (the high half of a 32-bit
/// draw times `bound`) and advances the generator.
#[verifier::external_body]
pub(crate) fn rand_below(rng: &mut Rand32, bound: u32) -> (r: u32)
    requires
        0 < bound,
    ensures
        r < bound,
{
    rng.rand_range(0..bound)
}

} // verus!
