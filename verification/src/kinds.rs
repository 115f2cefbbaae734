use vstd::prelude::*;

use crate::random::random_in;

verus! {

/// Number of rolls `r` in `0..n` that satisfy `pred`.
pub open spec fn rolls_where(n: nat, pred: spec_fn(int) -> bool) -> nat
    decreases n,
{
    if n == 0 {
        0
    } else {
        rolls_where((n - 1) as nat, pred) + if pred(n - 1) {
            1nat
        } else {
            0nat
        }
    }
}

// ─── Central landmark ───

/// The three forms of the landmark near the spawn point.
#[derive(Clone, Copy, Debug, PartialEq, Eq, Structural)]
pub enum LandmarkKind {
    /// A tall tower with an archway and a gate at its base.
    Tower,
    /// Three stacked cubes with gates on two sides.
    StackedCubes,
    /// Four pillars carrying a high bridge, with two crossed gates.
    PillarBridge,
}

/// The landmark a roll of `0..3` selects.
pub open spec fn landmark_kind_of(roll: int) -> LandmarkKind {
    if roll == 0 {
        LandmarkKind::Tower
    } else if roll == 1 {
        LandmarkKind::StackedCubes
    } else {
        LandmarkKind::PillarBridge
    }
}

/// The landmark a roll of `0..3` selects.
pub fn landmark_kind(roll: usize) -> (k: LandmarkKind)
    ensures
        k == landmark_kind_of(roll as int),
{
    if roll == 0 {
        LandmarkKind::Tower
    } else if roll == 1 {
        LandmarkKind::StackedCubes
    } else {
        LandmarkKind::PillarBridge
    }
}

/// A landmark form selected by a random roll of `0..3`.
pub fn roll_landmark_kind(rng: &mut rand::rngs::ThreadRng) -> (k: LandmarkKind)
    ensures
        exists|roll: int| 0 <= roll < 3 && k == #[trigger] landmark_kind_of(roll),
{
    let roll = random_in(rng, 0, 2);
    landmark_kind(roll)
}

// ─── Freestyle clusters ───

/// The forms of a freestyle cluster.
#[derive(Clone, Copy, Debug, PartialEq, Eq, Structural)]
pub enum ClusterKind {
    /// Randomly scattered pillars to weave through.
    PillarForest,
    /// Two stacked cubes with gates at three heights.
    MultiLevelBando,
    /// Two towers joined by a bridge, with a gate between them.
    TwinTowers,
    /// Two facing ramps with a gate between them.
    RampPair,
    /// A row of archways.
    ArchwayRow,
    /// A low and a high gate at the same place.
    StackedGates,
    /// Two cubes with a flyable gap and a gate in it.
    CubeCanyon,
    /// Two cubes bridged by a third one on top.
    CubeBridge,
    /// A ring of pillars around a gate.
    PillarRing,
    /// Three cubes of decreasing size stacked.
    Pyramid,
    /// A cube carried by four legs.
    ElevatedPlatform,
    /// A line of pillars alternating left and right.
    PillarSlalom,
}

/// Number of values a cluster roll is drawn from.
pub const CLUSTER_ROLLS: usize = 13;

/// The cluster a roll of `0..13` selects; rolls 3 and 12 both give a
/// slalom.
pub open spec fn cluster_kind_of(roll: int) -> ClusterKind {
    if roll == 0 {
        ClusterKind::PillarForest
    } else if roll == 1 {
        ClusterKind::MultiLevelBando
    } else if roll == 2 {
        ClusterKind::TwinTowers
    } else if roll == 4 {
        ClusterKind::RampPair
    } else if roll == 5 {
        ClusterKind::ArchwayRow
    } else if roll == 6 {
        ClusterKind::StackedGates
    } else if roll == 7 {
        ClusterKind::CubeCanyon
    } else if roll == 8 {
        ClusterKind::CubeBridge
    } else if roll == 9 {
        ClusterKind::PillarRing
    } else if roll == 10 {
        ClusterKind::Pyramid
    } else if roll == 11 {
        ClusterKind::ElevatedPlatform
    } else {
        ClusterKind::PillarSlalom
    }
}

/// The cluster a roll of `0..13` selects.
pub fn cluster_kind(roll: usize) -> (k: ClusterKind)
    ensures
        k == cluster_kind_of(roll as int),
{
    match roll {
        0 => ClusterKind::PillarForest,
        1 => ClusterKind::MultiLevelBando,
        2 => ClusterKind::TwinTowers,
        4 => ClusterKind::RampPair,
        5 => ClusterKind::ArchwayRow,
        6 => ClusterKind::StackedGates,
        7 => ClusterKind::CubeCanyon,
        8 => ClusterKind::CubeBridge,
        9 => ClusterKind::PillarRing,
        10 => ClusterKind::Pyramid,
        11 => ClusterKind::ElevatedPlatform,
        _ => ClusterKind::PillarSlalom,
    }
}

/// A cluster form drawn at random.
pub fn roll_cluster_kind(rng: &mut rand::rngs::ThreadRng) -> (k: ClusterKind)
    ensures
        exists|roll: int| 0 <= roll < CLUSTER_ROLLS && k == #[trigger] cluster_kind_of(roll),
{
    let roll = random_in(rng, 0, CLUSTER_ROLLS - 1);
    cluster_kind(roll)
}

/// How many of the thirteen cluster rolls give each form: two for the
/// slalom, one for every other form.
pub open spec fn cluster_share(k: ClusterKind) -> nat {
    if k == ClusterKind::PillarSlalom {
        2
    } else {
        1
    }
}

/// Every cluster form can come out of a roll; the slalom has two chances
/// in thirteen and every other form one.
pub proof fn lemma_cluster_shares(k: ClusterKind)
    ensures
        rolls_where(CLUSTER_ROLLS as nat, |r: int| cluster_kind_of(r) == k) == cluster_share(k),
{
    reveal_with_fuel(rolls_where, 14);
}

// ─── Scattered obstacles ───

/// The forms of a scattered obstacle.
#[derive(Clone, Copy, Debug, PartialEq, Eq, Structural)]
pub enum ScatteredKind {
    /// A single tall pillar.
    TallPillar,
    /// A single cube on the ground.
    CubeObstacle,
    /// A gate on the ground.
    StandaloneGate,
    /// A gate raised on two thin pillars.
    ElevatedGate,
    /// Two cubes with a gate in the gap between them.
    SplitCube,
    /// Two pillars joined by a beam.
    Archway,
}

/// Number of values a scattered-obstacle roll is drawn from.
pub const SCATTERED_ROLLS: usize = 7;

/// The obstacle a roll of `0..7` selects; rolls 4 and 6 both give an
/// archway.
pub open spec fn scattered_kind_of(roll: int) -> ScatteredKind {
    if roll == 0 {
        ScatteredKind::TallPillar
    } else if roll == 1 {
        ScatteredKind::CubeObstacle
    } else if roll == 2 {
        ScatteredKind::StandaloneGate
    } else if roll == 3 {
        ScatteredKind::ElevatedGate
    } else if roll == 5 {
        ScatteredKind::SplitCube
    } else {
        ScatteredKind::Archway
    }
}

/// The obstacle a roll of `0..7` selects.
pub fn scattered_kind(roll: usize) -> (k: ScatteredKind)
    ensures
        k == scattered_kind_of(roll as int),
{
    match roll {
        0 => ScatteredKind::TallPillar,
        1 => ScatteredKind::CubeObstacle,
        2 => ScatteredKind::StandaloneGate,
        3 => ScatteredKind::ElevatedGate,
        5 => ScatteredKind::SplitCube,
        _ => ScatteredKind::Archway,
    }
}

/// An obstacle form drawn at random.
pub fn roll_scattered_kind(rng: &mut rand::rngs::ThreadRng) -> (k: ScatteredKind)
    ensures
        exists|roll: int| 0 <= roll < SCATTERED_ROLLS && k == #[trigger] scattered_kind_of(roll),
{
    let roll = random_in(rng, 0, SCATTERED_ROLLS - 1);
    scattered_kind(roll)
}

/// How many of the seven obstacle rolls give each form.
pub open spec fn scattered_share(k: ScatteredKind) -> nat {
    if k == ScatteredKind::Archway {
        2
    } else {
        1
    }
}

/// Every obstacle form can come out of a roll; the archway has two chances
/// in seven and every other form one.
pub proof fn lemma_scattered_shares(k: ScatteredKind)
    ensures
        rolls_where(SCATTERED_ROLLS as nat, |r: int| scattered_kind_of(r) == k)
            == scattered_share(k),
{
    reveal_with_fuel(rolls_where, 8);
}

// ─── Height of circuit gates ───

/// The height band of a gate of the circuit.
#[derive(Clone, Copy, Debug, PartialEq, Eq, Structural)]
pub enum HeightBand {
    /// Standing on the ground.
    Ground,
    /// Raised to mid height.
    Mid,
    /// Raised high, a dive target.
    High,
}

/// Number of values a height roll is drawn from.
pub const HEIGHT_ROLLS: usize = 10;

/// The band a roll of `0..10` selects: 0 to 5 and 9 the ground, 6 and 7
/// mid height, 8 high.
pub open spec fn height_band_of(roll: int) -> HeightBand {
    if 6 <= roll <= 7 {
        HeightBand::Mid
    } else if roll == 8 {
        HeightBand::High
    } else {
        HeightBand::Ground
    }
}

/// The band a roll of `0..10` selects.
pub fn height_band(roll: usize) -> (b: HeightBand)
    ensures
        b == height_band_of(roll as int),
{
    if roll <= 5 {
        HeightBand::Ground
    } else if roll <= 7 {
        HeightBand::Mid
    } else if roll == 8 {
        HeightBand::High
    } else {
        HeightBand::Ground
    }
}

/// A height band drawn at random.
pub fn roll_height_band(rng: &mut rand::rngs::ThreadRng) -> (b: HeightBand)
    ensures
        exists|roll: int| 0 <= roll < HEIGHT_ROLLS && b == #[trigger] height_band_of(roll),
{
    let roll = random_in(rng, 0, HEIGHT_ROLLS - 1);
    height_band(roll)
}

/// How many of the ten height rolls give each band.
pub open spec fn height_share(b: HeightBand) -> nat {
    match b {
        HeightBand::Ground => 7,
        HeightBand::Mid => 2,
        HeightBand::High => 1,
    }
}

/// Seven height rolls in ten put a gate on the ground, two at mid height
/// and one high.
pub proof fn lemma_height_shares(b: HeightBand)
    ensures
        rolls_where(HEIGHT_ROLLS as nat, |r: int| height_band_of(r) == b) == height_share(b),
{
    reveal_with_fuel(rolls_where, 11);
}

} // verus!
