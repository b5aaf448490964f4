//! The integer draw behind the renderer's uniform random source.

use vstd::prelude::*;

verus! {

/// Number of distinct values a draw can take; a draw `k` stands for the
/// fraction `k / RANDOM_RESOLUTION` of the unit interval.
pub const RANDOM_RESOLUTION: u32 = 100000;

/// Constant mixed into every seed before reduction.
pub const SEED_MIX: u32 = 3631984913;

/// The draw for `seed` under the entropy word `noise`.
pub open spec fn ticks_of(seed: u32, noise: u32) -> nat {
    ((seed ^ noise ^ SEED_MIX) % RANDOM_RESOLUTION) as nat
}

/// Draws a value in `[0, RANDOM_RESOLUTION)` from a seed and an entropy word.
/// With a fixed `noise` the draw depends on the seed alone, which makes
/// renders reproducible; a time-derived `noise` decorrelates runs.
pub fn random_ticks(seed: u32, noise: u32) -> (r: u32)
    ensures
        r == ticks_of(seed, noise),
        r < RANDOM_RESOLUTION,
{
    (seed ^ noise ^ SEED_MIX) % RANDOM_RESOLUTION
}

} // verus!
