use biski64::Biski64Rng;
use rand_core::{RngCore, SeedableRng};
use vstd::prelude::*;

verus! {

/// The console's random number generator, from the `biski64` crate.
#[verifier::external_type_specification]
#[verifier::external_body]
pub struct ExBiski64Rng(Biski64Rng);

/// The generator that `Biski64Rng::seed_from_u64` builds from `seed`.
/// `rand_core`'s `seed_from_u64` expands the seed into 32 bytes with a fixed
/// PCG32 stream and `biski64`'s `from_seed` mixes the first eight of them
/// with SplitMix64 and warms up for sixteen rounds: a function of the seed
/// alone, whose private state this name stands for.
pub uninterp spec fn seeded_generator(seed: u64) -> Biski64Rng;

/// Seeds a generator with `Biski64Rng::seed_from_u64` (the `SeedableRng`
/// method of `rand_core`). The contract claims only that the same seed
/// always gives the same generator; its private state is not described.
#[verifier::external_body]
pub(crate) fn seeded_rng(seed: u64) -> (rng: Biski64Rng)
    ensures
        rng == seeded_generator(seed),
{
    Biski64Rng::seed_from_u64(seed)
}

/// What `Biski64Rng::next_u64` gives on a generator: the number it returns
/// and the generator after the call. The method reads and updates only the
/// generator's three private words, with fixed wrapping arithmetic, so both
/// are a function of the generator alone; this name stands for that function.
pub uninterp spec fn next_u64_result(rng: Biski64Rng) -> (u64, Biski64Rng);

/// The number that the next draw from `rng` returns.
pub open spec fn next_output(rng: Biski64Rng) -> u64 {
    next_u64_result(rng).0
}

/// The generator after one draw from `rng`.
pub open spec fn advanced(rng: Biski64Rng) -> Biski64Rng {
    next_u64_result(rng).1
}

/// Draws the next number with `Biski64Rng::next_u64` (the `RngCore` method
/// of `rand_core`). The contract claims that the number and the new state of
/// the generator depend on its old state alone; the state itself is private
/// to `biski64` and is not described. The method only adds, rotates and xors
/// with wrapping arithmetic, so it never panics.
#[verifier::external_body]
pub(crate) fn next_roll(rng: &mut Biski64Rng) -> (roll: u64)
    ensures
        (roll, *final(rng)) == next_u64_result(*old(rng)),
    no_unwind
{
    rng.next_u64()
}

} // verus!
