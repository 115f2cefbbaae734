use vstd::prelude::*;

use crate::random::random_in;

verus! {

/// Fewest gates on the circuit.
pub const MIN_GATES: usize = 10;
/// Most gates on the circuit (follow-up gates of a sequence not counted).
pub const MAX_GATES: usize = 14;
/// Fewest freestyle clusters the course tries to place (each may be
/// given up when its tries run out, so fewer can end up placed).
pub const MIN_CLUSTERS: usize = 4;
/// Most freestyle clusters the course tries to place.
pub const MAX_CLUSTERS: usize = 6;
/// Fewest scattered obstacles the course tries to place.
pub const MIN_SCATTERED: usize = 12;
/// Most scattered obstacles the course tries to place.
pub const MAX_SCATTERED: usize = 20;
/// Fewest follow-up gates of a gate sequence.
pub const MIN_SEQUENCE: usize = 1;
/// Most follow-up gates of a gate sequence.
pub const MAX_SEQUENCE: usize = 2;
/// Positions tried for each freestyle cluster before it is given up.
pub const CLUSTER_TRIES: usize = 15;
/// Positions tried for each scattered obstacle before it is given up.
pub const SCATTERED_TRIES: usize = 10;
/// Power-loop pillars standing in front of the spawn point.
pub const SPAWN_PILLARS: usize = 3;
/// Fewest and most pillars a pillar forest tries to raise.
pub const MIN_FOREST_PILLARS: usize = 4;
pub const MAX_FOREST_PILLARS: usize = 7;
/// Fewest and most archways in an archway row.
pub const MIN_ARCHWAYS: usize = 2;
pub const MAX_ARCHWAYS: usize = 4;
/// Fewest and most pillars around a pillar ring.
pub const MIN_RING_PILLARS: usize = 6;
pub const MAX_RING_PILLARS: usize = 8;
/// Fewest and most pillars of a pillar slalom.
pub const MIN_SLALOM_PILLARS: usize = 4;
pub const MAX_SLALOM_PILLARS: usize = 6;

/// Number of gates of the circuit, drawn at random.
pub fn roll_gate_count(rng: &mut rand::rngs::ThreadRng) -> (n: usize)
    ensures
        MIN_GATES <= n <= MAX_GATES,
{
    random_in(rng, MIN_GATES, MAX_GATES)
}

/// Number of freestyle clusters to place, drawn at random.
pub fn roll_cluster_count(rng: &mut rand::rngs::ThreadRng) -> (n: usize)
    ensures
        MIN_CLUSTERS <= n <= MAX_CLUSTERS,
{
    random_in(rng, MIN_CLUSTERS, MAX_CLUSTERS)
}

/// Number of scattered obstacles to place, drawn at random.
pub fn roll_scattered_count(rng: &mut rand::rngs::ThreadRng) -> (n: usize)
    ensures
        MIN_SCATTERED <= n <= MAX_SCATTERED,
{
    random_in(rng, MIN_SCATTERED, MAX_SCATTERED)
}

/// Number of follow-up gates of a gate sequence, drawn at random.
pub fn roll_sequence_length(rng: &mut rand::rngs::ThreadRng) -> (n: usize)
    ensures
        MIN_SEQUENCE <= n <= MAX_SEQUENCE,
{
    random_in(rng, MIN_SEQUENCE, MAX_SEQUENCE)
}

/// Number of pillars a pillar forest tries to raise, drawn at random.
pub fn roll_forest_pillar_count(rng: &mut rand::rngs::ThreadRng) -> (n: usize)
    ensures
        MIN_FOREST_PILLARS <= n <= MAX_FOREST_PILLARS,
{
    random_in(rng, MIN_FOREST_PILLARS, MAX_FOREST_PILLARS)
}

/// Number of archways of an archway row, drawn at random.
pub fn roll_archway_count(rng: &mut rand::rngs::ThreadRng) -> (n: usize)
    ensures
        MIN_ARCHWAYS <= n <= MAX_ARCHWAYS,
{
    random_in(rng, MIN_ARCHWAYS, MAX_ARCHWAYS)
}

/// Number of pillars around a pillar ring, drawn at random.
pub fn roll_ring_pillar_count(rng: &mut rand::rngs::ThreadRng) -> (n: usize)
    ensures
        MIN_RING_PILLARS <= n <= MAX_RING_PILLARS,
{
    random_in(rng, MIN_RING_PILLARS, MAX_RING_PILLARS)
}

/// Number of pillars of a pillar slalom, drawn at random.
pub fn roll_slalom_pillar_count(rng: &mut rand::rngs::ThreadRng) -> (n: usize)
    ensures
        MIN_SLALOM_PILLARS <= n <= MAX_SLALOM_PILLARS,
{
    random_in(rng, MIN_SLALOM_PILLARS, MAX_SLALOM_PILLARS)
}

/// Whether gate `i` of a circuit of `num_gates` gates may be followed by a
/// sequence: every gate but the last.
pub fn sequence_allowed_after(i: usize, num_gates: usize) -> (b: bool)
    requires
        num_gates >= 1,
    ensures
        b == (i + 1 < num_gates),
{
    i < num_gates - 1
}

} // verus!
