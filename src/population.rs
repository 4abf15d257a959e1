use vstd::prelude::*;

use rand::rngs::StdRng;
use rand::{Rng, SeedableRng};

use crate::snapshot::NUM_SPECIES;

verus! {

#[verifier::external_type_specification]
#[verifier::external_body]
pub struct ExStdRng(StdRng);

/// Relies on rand's SeedableRng::seed_from_u64 for StdRng: a generator whose
/// stream is fixed by the seed.
#[verifier::external_body]
fn seeded_rng(seed: u64) -> StdRng {
    StdRng::seed_from_u64(seed)
}

/// Relies on rand's Rng::gen_range over the inclusive range `0..=high`,
/// which is never empty: a value of that range.
#[verifier::external_body]
fn draw_up_to(rng: &mut StdRng, high: u32) -> (r: u32)
    ensures
        r <= high,
{
    rng.gen_range(0..=high)
}

/// Species labels of a fresh population of `num_agents` agents, each drawn
/// uniformly from the species set with a generator seeded by `seed`.
pub fn initial_species(seed: u64, num_agents: u32) -> (r: Vec<u32>)
    ensures
        r@.len() == num_agents,
        forall|k: int| 0 <= k < r@.len() ==> #[trigger] r@[k] < NUM_SPECIES,
{
    let mut rng = seeded_rng(seed);
    let mut out: Vec<u32> = Vec::new();
    let mut i: u32 = 0;
    while i < num_agents
        invariant
            i <= num_agents,
            out@.len() == i,
            forall|k: int| 0 <= k < out@.len() ==> #[trigger] out@[k] < NUM_SPECIES,
        decreases num_agents - i,
    {
        let s = draw_up_to(&mut rng, NUM_SPECIES - 1);
        out.push(s);
        i = i + 1;
    }
    out
}

} // verus!
