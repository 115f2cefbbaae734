use vstd::prelude::*;

use crate::color::Color;
use crate::kinds::{ClusterKind, LandmarkKind, ScatteredKind};
use crate::palette::Palette;
use crate::parts::{
    cluster_blueprint, cluster_unit_blueprint, follows, landmark_blueprint, scattered_blueprint,
    Part, PartShape, Tint,
};

verus! {

/// `p` is a `s` in colour `c`.
pub open spec fn part_is(p: Part, s: PartShape, c: Color) -> bool {
    p.shape == s && p.color == c
}

/// `p` is a `s` in one of the palette's three bright colours.
pub open spec fn bright_part(pal: Palette, p: Part, s: PartShape) -> bool {
    p.shape == s && pal.is_bright(p.color)
}

/// What each landmark is built of.
pub open spec fn landmark_form(k: LandmarkKind, pal: Palette, ps: Seq<Part>) -> bool {
    match k {
        // a primary column, two secondary pillars with a secondary beam,
        // an accent gate
        LandmarkKind::Tower => {
            &&& ps.len() == 5
            &&& part_is(ps[0], PartShape::Pillar, pal.primary)
            &&& part_is(ps[1], PartShape::Pillar, pal.secondary)
            &&& part_is(ps[2], PartShape::Pillar, pal.secondary)
            &&& part_is(ps[3], PartShape::Wall, pal.secondary)
            &&& part_is(ps[4], PartShape::Gate, pal.accent)
        },
        // structure, dark and primary cubes, an accent and a secondary gate
        LandmarkKind::StackedCubes => {
            &&& ps.len() == 5
            &&& part_is(ps[0], PartShape::Cube, pal.structure)
            &&& part_is(ps[1], PartShape::Cube, pal.dark)
            &&& part_is(ps[2], PartShape::Cube, pal.primary)
            &&& part_is(ps[3], PartShape::Gate, pal.accent)
            &&& part_is(ps[4], PartShape::Gate, pal.secondary)
        },
        // four primary pillars, a secondary bridge, two accent gates
        LandmarkKind::PillarBridge => {
            &&& ps.len() == 7
            &&& part_is(ps[0], PartShape::Pillar, pal.primary)
            &&& part_is(ps[1], PartShape::Pillar, pal.primary)
            &&& part_is(ps[2], PartShape::Pillar, pal.primary)
            &&& part_is(ps[3], PartShape::Pillar, pal.primary)
            &&& part_is(ps[4], PartShape::Wall, pal.secondary)
            &&& part_is(ps[5], PartShape::Gate, pal.accent)
            &&& part_is(ps[6], PartShape::Gate, pal.accent)
        },
    }
}

/// What each cluster has once.
pub open spec fn cluster_form(k: ClusterKind, pal: Palette, ps: Seq<Part>) -> bool {
    match k {
        ClusterKind::PillarForest => ps.len() == 0,
        // structure and dark cubes; primary, accent and secondary gates
        ClusterKind::MultiLevelBando => {
            &&& ps.len() == 5
            &&& part_is(ps[0], PartShape::Cube, pal.structure)
            &&& part_is(ps[1], PartShape::Cube, pal.dark)
            &&& part_is(ps[2], PartShape::Gate, pal.primary)
            &&& part_is(ps[3], PartShape::Gate, pal.accent)
            &&& part_is(ps[4], PartShape::Gate, pal.secondary)
        },
        // two towers and their bridge in one bright colour, an accent gate
        ClusterKind::TwinTowers => {
            &&& ps.len() == 4
            &&& bright_part(pal, ps[0], PartShape::Pillar)
            &&& part_is(ps[1], PartShape::Pillar, ps[0].color)
            &&& part_is(ps[2], PartShape::Wall, ps[0].color)
            &&& part_is(ps[3], PartShape::Gate, pal.accent)
        },
        // two ramps in one bright colour, an accent gate
        ClusterKind::RampPair => {
            &&& ps.len() == 3
            &&& bright_part(pal, ps[0], PartShape::Ramp)
            &&& part_is(ps[1], PartShape::Ramp, ps[0].color)
            &&& part_is(ps[2], PartShape::Gate, pal.accent)
        },
        ClusterKind::ArchwayRow => ps.len() == 0,
        // a primary and a secondary gate on structure pillars
        ClusterKind::StackedGates => {
            &&& ps.len() == 4
            &&& part_is(ps[0], PartShape::Gate, pal.primary)
            &&& part_is(ps[1], PartShape::Gate, pal.secondary)
            &&& part_is(ps[2], PartShape::Pillar, pal.structure)
            &&& part_is(ps[3], PartShape::Pillar, pal.structure)
        },
        // two bright cubes, each picked on its own, an accent gate
        ClusterKind::CubeCanyon => {
            &&& ps.len() == 3
            &&& bright_part(pal, ps[0], PartShape::Cube)
            &&& bright_part(pal, ps[1], PartShape::Cube)
            &&& part_is(ps[2], PartShape::Gate, pal.accent)
        },
        // two cubes in one bright colour, a secondary beam cube on top,
        // an accent gate
        ClusterKind::CubeBridge => {
            &&& ps.len() == 4
            &&& bright_part(pal, ps[0], PartShape::Cube)
            &&& part_is(ps[1], PartShape::Cube, ps[0].color)
            &&& part_is(ps[2], PartShape::Cube, pal.secondary)
            &&& part_is(ps[3], PartShape::Gate, pal.accent)
        },
        // the accent gate in the centre
        ClusterKind::PillarRing => {
            &&& ps.len() == 1
            &&& part_is(ps[0], PartShape::Gate, pal.accent)
        },
        // structure, dark and primary cubes
        ClusterKind::Pyramid => {
            &&& ps.len() == 3
            &&& part_is(ps[0], PartShape::Cube, pal.structure)
            &&& part_is(ps[1], PartShape::Cube, pal.dark)
            &&& part_is(ps[2], PartShape::Cube, pal.primary)
        },
        // four legs in one bright colour, a secondary platform
        ClusterKind::ElevatedPlatform => {
            &&& ps.len() == 5
            &&& bright_part(pal, ps[0], PartShape::Pillar)
            &&& part_is(ps[1], PartShape::Pillar, ps[0].color)
            &&& part_is(ps[2], PartShape::Pillar, ps[0].color)
            &&& part_is(ps[3], PartShape::Pillar, ps[0].color)
            &&& part_is(ps[4], PartShape::Cube, pal.secondary)
        },
        ClusterKind::PillarSlalom => ps.len() == 0,
    }
}

/// What each repeated unit of a cluster is built of.
pub open spec fn cluster_unit_form(k: ClusterKind, pal: Palette, ps: Seq<Part>) -> bool {
    match k {
        ClusterKind::PillarForest | ClusterKind::PillarRing | ClusterKind::PillarSlalom => {
            &&& ps.len() == 1
            &&& bright_part(pal, ps[0], PartShape::Pillar)
        },
        // one archway: two pillars and a beam in one bright colour
        ClusterKind::ArchwayRow => {
            &&& ps.len() == 3
            &&& bright_part(pal, ps[0], PartShape::Pillar)
            &&& part_is(ps[1], PartShape::Pillar, ps[0].color)
            &&& part_is(ps[2], PartShape::Wall, ps[0].color)
        },
        _ => ps.len() == 0,
    }
}

/// What each scattered obstacle is built of.
pub open spec fn scattered_form(k: ScatteredKind, pal: Palette, ps: Seq<Part>) -> bool {
    match k {
        ScatteredKind::TallPillar => ps.len() == 1 && bright_part(pal, ps[0], PartShape::Pillar),
        ScatteredKind::CubeObstacle => ps.len() == 1 && bright_part(pal, ps[0], PartShape::Cube),
        ScatteredKind::StandaloneGate => ps.len() == 1 && bright_part(pal, ps[0], PartShape::Gate),
        // an accent gate on two structure pillars
        ScatteredKind::ElevatedGate => {
            &&& ps.len() == 3
            &&& part_is(ps[0], PartShape::Gate, pal.accent)
            &&& part_is(ps[1], PartShape::Pillar, pal.structure)
            &&& part_is(ps[2], PartShape::Pillar, pal.structure)
        },
        // two bright cubes, each picked on its own, an accent gate
        ScatteredKind::SplitCube => {
            &&& ps.len() == 3
            &&& bright_part(pal, ps[0], PartShape::Cube)
            &&& bright_part(pal, ps[1], PartShape::Cube)
            &&& part_is(ps[2], PartShape::Gate, pal.accent)
        },
        // two pillars and a beam in one bright colour
        ScatteredKind::Archway => {
            &&& ps.len() == 3
            &&& bright_part(pal, ps[0], PartShape::Pillar)
            &&& part_is(ps[1], PartShape::Pillar, ps[0].color)
            &&& part_is(ps[2], PartShape::Wall, ps[0].color)
        },
    }
}

/// Parts laid out after a landmark's blueprint are the landmark's parts.
pub proof fn lemma_landmark_form(k: LandmarkKind, pal: Palette, ps: Seq<Part>)
    requires
        follows(ps, landmark_blueprint(k), pal),
    ensures
        landmark_form(k, pal, ps),
{
    let plan = landmark_blueprint(k);
    assert forall|i: int| 0 <= i < ps.len() implies ps[i].shape == plan[i].0 && pal.allows(
        plan[i].1,
        ps[i].color,
    ) by {}
}

/// Parts laid out after a cluster's blueprint are the cluster's parts.
pub proof fn lemma_cluster_form(k: ClusterKind, pal: Palette, ps: Seq<Part>)
    requires
        follows(ps, cluster_blueprint(k), pal),
    ensures
        cluster_form(k, pal, ps),
{
    let plan = cluster_blueprint(k);
    assert forall|i: int| 0 <= i < ps.len() implies ps[i].shape == plan[i].0 && pal.allows(
        plan[i].1,
        ps[i].color,
    ) by {}
    if ps.len() >= 4 {
        assert(plan[0].1 == Tint::Shared && plan[3].1 == Tint::Shared ==> ps[0].color == ps[3].color);
    }
    if ps.len() >= 3 {
        assert(plan[0].1 == Tint::Shared && plan[1].1 == Tint::Shared ==> ps[0].color == ps[1].color);
        assert(plan[0].1 == Tint::Shared && plan[2].1 == Tint::Shared ==> ps[0].color == ps[2].color);
    }
}

/// Parts laid out after a cluster's unit blueprint are the parts of one
/// unit.
pub proof fn lemma_cluster_unit_form(k: ClusterKind, pal: Palette, ps: Seq<Part>)
    requires
        follows(ps, cluster_unit_blueprint(k), pal),
    ensures
        cluster_unit_form(k, pal, ps),
{
    let plan = cluster_unit_blueprint(k);
    assert forall|i: int| 0 <= i < ps.len() implies ps[i].shape == plan[i].0 && pal.allows(
        plan[i].1,
        ps[i].color,
    ) by {}
    if ps.len() >= 3 {
        assert(plan[0].1 == Tint::Shared && plan[1].1 == Tint::Shared ==> ps[0].color == ps[1].color);
        assert(plan[0].1 == Tint::Shared && plan[2].1 == Tint::Shared ==> ps[0].color == ps[2].color);
    }
}

/// Parts laid out after an obstacle's blueprint are the obstacle's parts.
pub proof fn lemma_scattered_form(k: ScatteredKind, pal: Palette, ps: Seq<Part>)
    requires
        follows(ps, scattered_blueprint(k), pal),
    ensures
        scattered_form(k, pal, ps),
{
    let plan = scattered_blueprint(k);
    assert forall|i: int| 0 <= i < ps.len() implies ps[i].shape == plan[i].0 && pal.allows(
        plan[i].1,
        ps[i].color,
    ) by {}
    if ps.len() >= 3 {
        assert(plan[0].1 == Tint::Shared && plan[1].1 == Tint::Shared ==> ps[0].color == ps[1].color);
        assert(plan[0].1 == Tint::Shared && plan[2].1 == Tint::Shared ==> ps[0].color == ps[2].color);
    }
}

} // verus!
