use vstd::prelude::*;

use crate::color::Color;
use crate::forms::{
    cluster_form, cluster_unit_form, landmark_form, lemma_cluster_form, lemma_cluster_unit_form,
    lemma_landmark_form, lemma_scattered_form, scattered_form,
};
use crate::kinds::{ClusterKind, LandmarkKind, ScatteredKind};
use crate::palette::Palette;

verus! {

/// The primitive a part of a course object is built from.
#[derive(Clone, Copy, Debug, PartialEq, Eq, Structural)]
pub enum PartShape {
    Pillar,
    Wall,
    Cube,
    Ramp,
    Gate,
}

/// Which colour of the palette a part takes.
#[derive(Clone, Copy, Debug, PartialEq, Eq, Structural)]
pub enum Tint {
    Primary,
    Secondary,
    Accent,
    Structure,
    Dark,
    /// A bright colour picked at random for this part alone.
    Fresh,
    /// A bright colour picked at random once and shared by every part of
    /// the object that has this tint.
    Shared,
}

/// A part of a course object: its primitive and its colour.
#[derive(Clone, Copy, Debug, PartialEq, Eq, Structural)]
pub struct Part {
    pub shape: PartShape,
    pub color: Color,
}

impl Palette {
    /// Whether `c` is one of the three bright colours.
    pub open spec fn is_bright(self, c: Color) -> bool {
        c == self.primary || c == self.secondary || c == self.accent
    }

    /// Whether `c` is a colour the tint allows.
    pub open spec fn allows(self, t: Tint, c: Color) -> bool {
        match t {
            Tint::Primary => c == self.primary,
            Tint::Secondary => c == self.secondary,
            Tint::Accent => c == self.accent,
            Tint::Structure => c == self.structure,
            Tint::Dark => c == self.dark,
            Tint::Fresh => self.is_bright(c),
            Tint::Shared => self.is_bright(c),
        }
    }
}

/// `parts` carries out `plan` with palette `pal`: one part per entry, of
/// the planned primitive, in a colour its tint allows, every shared part
/// in one colour.
pub open spec fn follows(parts: Seq<Part>, plan: Seq<(PartShape, Tint)>, pal: Palette) -> bool {
    &&& parts.len() == plan.len()
    &&& forall|i: int|
        0 <= i < parts.len() ==> #[trigger] parts[i].shape == plan[i].0 && pal.allows(
            plan[i].1,
            parts[i].color,
        )
    &&& forall|i: int, j: int|
        0 <= i < parts.len() && 0 <= j < parts.len() && plan[i].1 == Tint::Shared && plan[j].1
            == Tint::Shared ==> #[trigger] parts[i].color == #[trigger] parts[j].color
}

// ─── Blueprints ───

/// The parts of a landmark, in the order they are laid out.
pub open spec fn landmark_blueprint(k: LandmarkKind) -> Seq<(PartShape, Tint)> {
    match k {
        // main column, arch pillars and beam, gate
        LandmarkKind::Tower => seq![
            (PartShape::Pillar, Tint::Primary),
            (PartShape::Pillar, Tint::Secondary),
            (PartShape::Pillar, Tint::Secondary),
            (PartShape::Wall, Tint::Secondary),
            (PartShape::Gate, Tint::Accent),
        ],
        // three stacked cubes, then the gates on two sides
        LandmarkKind::StackedCubes => seq![
            (PartShape::Cube, Tint::Structure),
            (PartShape::Cube, Tint::Dark),
            (PartShape::Cube, Tint::Primary),
            (PartShape::Gate, Tint::Accent),
            (PartShape::Gate, Tint::Secondary),
        ],
        // four pillars, the bridge, two crossed gates
        LandmarkKind::PillarBridge => seq![
            (PartShape::Pillar, Tint::Primary),
            (PartShape::Pillar, Tint::Primary),
            (PartShape::Pillar, Tint::Primary),
            (PartShape::Pillar, Tint::Primary),
            (PartShape::Wall, Tint::Secondary),
            (PartShape::Gate, Tint::Accent),
            (PartShape::Gate, Tint::Accent),
        ],
    }
}

/// The parts a cluster has once, in the order they are laid out (after
/// its repeated units, where it has any).
pub open spec fn cluster_blueprint(k: ClusterKind) -> Seq<(PartShape, Tint)> {
    match k {
        ClusterKind::PillarForest => seq![],
        ClusterKind::MultiLevelBando => seq![
            (PartShape::Cube, Tint::Structure),
            (PartShape::Cube, Tint::Dark),
            (PartShape::Gate, Tint::Primary),
            (PartShape::Gate, Tint::Accent),
            (PartShape::Gate, Tint::Secondary),
        ],
        ClusterKind::TwinTowers => seq![
            (PartShape::Pillar, Tint::Shared),
            (PartShape::Pillar, Tint::Shared),
            (PartShape::Wall, Tint::Shared),
            (PartShape::Gate, Tint::Accent),
        ],
        ClusterKind::RampPair => seq![
            (PartShape::Ramp, Tint::Shared),
            (PartShape::Ramp, Tint::Shared),
            (PartShape::Gate, Tint::Accent),
        ],
        ClusterKind::ArchwayRow => seq![],
        ClusterKind::StackedGates => seq![
            (PartShape::Gate, Tint::Primary),
            (PartShape::Gate, Tint::Secondary),
            (PartShape::Pillar, Tint::Structure),
            (PartShape::Pillar, Tint::Structure),
        ],
        ClusterKind::CubeCanyon => seq![
            (PartShape::Cube, Tint::Fresh),
            (PartShape::Cube, Tint::Fresh),
            (PartShape::Gate, Tint::Accent),
        ],
        ClusterKind::CubeBridge => seq![
            (PartShape::Cube, Tint::Shared),
            (PartShape::Cube, Tint::Shared),
            (PartShape::Cube, Tint::Secondary),
            (PartShape::Gate, Tint::Accent),
        ],
        ClusterKind::PillarRing => seq![(PartShape::Gate, Tint::Accent)],
        ClusterKind::Pyramid => seq![
            (PartShape::Cube, Tint::Structure),
            (PartShape::Cube, Tint::Dark),
            (PartShape::Cube, Tint::Primary),
        ],
        ClusterKind::ElevatedPlatform => seq![
            (PartShape::Pillar, Tint::Shared),
            (PartShape::Pillar, Tint::Shared),
            (PartShape::Pillar, Tint::Shared),
            (PartShape::Pillar, Tint::Shared),
            (PartShape::Cube, Tint::Secondary),
        ],
        ClusterKind::PillarSlalom => seq![],
    }
}

/// The parts of one repeated unit of a cluster (a pillar of a forest, ring
/// or slalom, an archway of a row); empty for clusters without units.
pub open spec fn cluster_unit_blueprint(k: ClusterKind) -> Seq<(PartShape, Tint)> {
    match k {
        ClusterKind::PillarForest => seq![(PartShape::Pillar, Tint::Fresh)],
        ClusterKind::ArchwayRow => seq![
            (PartShape::Pillar, Tint::Shared),
            (PartShape::Pillar, Tint::Shared),
            (PartShape::Wall, Tint::Shared),
        ],
        ClusterKind::PillarRing => seq![(PartShape::Pillar, Tint::Fresh)],
        ClusterKind::PillarSlalom => seq![(PartShape::Pillar, Tint::Fresh)],
        _ => seq![],
    }
}

/// The parts of a scattered obstacle, in the order they are laid out.
pub open spec fn scattered_blueprint(k: ScatteredKind) -> Seq<(PartShape, Tint)> {
    match k {
        ScatteredKind::TallPillar => seq![(PartShape::Pillar, Tint::Fresh)],
        ScatteredKind::CubeObstacle => seq![(PartShape::Cube, Tint::Fresh)],
        ScatteredKind::StandaloneGate => seq![(PartShape::Gate, Tint::Fresh)],
        ScatteredKind::ElevatedGate => seq![
            (PartShape::Gate, Tint::Accent),
            (PartShape::Pillar, Tint::Structure),
            (PartShape::Pillar, Tint::Structure),
        ],
        ScatteredKind::SplitCube => seq![
            (PartShape::Cube, Tint::Fresh),
            (PartShape::Cube, Tint::Fresh),
            (PartShape::Gate, Tint::Accent),
        ],
        ScatteredKind::Archway => seq![
            (PartShape::Pillar, Tint::Shared),
            (PartShape::Pillar, Tint::Shared),
            (PartShape::Wall, Tint::Shared),
        ],
    }
}

// ─── Plans ───

fn landmark_plan(k: LandmarkKind) -> (plan: Vec<(PartShape, Tint)>)
    ensures
        plan@ == landmark_blueprint(k),
{
    let plan = match k {
        LandmarkKind::Tower => vec![
            (PartShape::Pillar, Tint::Primary),
            (PartShape::Pillar, Tint::Secondary),
            (PartShape::Pillar, Tint::Secondary),
            (PartShape::Wall, Tint::Secondary),
            (PartShape::Gate, Tint::Accent),
        ],
        LandmarkKind::StackedCubes => vec![
            (PartShape::Cube, Tint::Structure),
            (PartShape::Cube, Tint::Dark),
            (PartShape::Cube, Tint::Primary),
            (PartShape::Gate, Tint::Accent),
            (PartShape::Gate, Tint::Secondary),
        ],
        LandmarkKind::PillarBridge => vec![
            (PartShape::Pillar, Tint::Primary),
            (PartShape::Pillar, Tint::Primary),
            (PartShape::Pillar, Tint::Primary),
            (PartShape::Pillar, Tint::Primary),
            (PartShape::Wall, Tint::Secondary),
            (PartShape::Gate, Tint::Accent),
            (PartShape::Gate, Tint::Accent),
        ],
    };
    assert(plan@ =~= landmark_blueprint(k));
    plan
}

fn cluster_plan(k: ClusterKind) -> (plan: Vec<(PartShape, Tint)>)
    ensures
        plan@ == cluster_blueprint(k),
{
    let plan = match k {
        ClusterKind::PillarForest => vec![],
        ClusterKind::MultiLevelBando => vec![
            (PartShape::Cube, Tint::Structure),
            (PartShape::Cube, Tint::Dark),
            (PartShape::Gate, Tint::Primary),
            (PartShape::Gate, Tint::Accent),
            (PartShape::Gate, Tint::Secondary),
        ],
        ClusterKind::TwinTowers => vec![
            (PartShape::Pillar, Tint::Shared),
            (PartShape::Pillar, Tint::Shared),
            (PartShape::Wall, Tint::Shared),
            (PartShape::Gate, Tint::Accent),
        ],
        ClusterKind::RampPair => vec![
            (PartShape::Ramp, Tint::Shared),
            (PartShape::Ramp, Tint::Shared),
            (PartShape::Gate, Tint::Accent),
        ],
        ClusterKind::ArchwayRow => vec![],
        ClusterKind::StackedGates => vec![
            (PartShape::Gate, Tint::Primary),
            (PartShape::Gate, Tint::Secondary),
            (PartShape::Pillar, Tint::Structure),
            (PartShape::Pillar, Tint::Structure),
        ],
        ClusterKind::CubeCanyon => vec![
            (PartShape::Cube, Tint::Fresh),
            (PartShape::Cube, Tint::Fresh),
            (PartShape::Gate, Tint::Accent),
        ],
        ClusterKind::CubeBridge => vec![
            (PartShape::Cube, Tint::Shared),
            (PartShape::Cube, Tint::Shared),
            (PartShape::Cube, Tint::Secondary),
            (PartShape::Gate, Tint::Accent),
        ],
        ClusterKind::PillarRing => vec![(PartShape::Gate, Tint::Accent)],
        ClusterKind::Pyramid => vec![
            (PartShape::Cube, Tint::Structure),
            (PartShape::Cube, Tint::Dark),
            (PartShape::Cube, Tint::Primary),
        ],
        ClusterKind::ElevatedPlatform => vec![
            (PartShape::Pillar, Tint::Shared),
            (PartShape::Pillar, Tint::Shared),
            (PartShape::Pillar, Tint::Shared),
            (PartShape::Pillar, Tint::Shared),
            (PartShape::Cube, Tint::Secondary),
        ],
        ClusterKind::PillarSlalom => vec![],
    };
    assert(plan@ =~= cluster_blueprint(k));
    plan
}

fn cluster_unit_plan(k: ClusterKind) -> (plan: Vec<(PartShape, Tint)>)
    ensures
        plan@ == cluster_unit_blueprint(k),
{
    let plan = match k {
        ClusterKind::PillarForest => vec![(PartShape::Pillar, Tint::Fresh)],
        ClusterKind::ArchwayRow => vec![
            (PartShape::Pillar, Tint::Shared),
            (PartShape::Pillar, Tint::Shared),
            (PartShape::Wall, Tint::Shared),
        ],
        ClusterKind::PillarRing => vec![(PartShape::Pillar, Tint::Fresh)],
        ClusterKind::PillarSlalom => vec![(PartShape::Pillar, Tint::Fresh)],
        _ => vec![],
    };
    assert(plan@ =~= cluster_unit_blueprint(k));
    plan
}

fn scattered_plan(k: ScatteredKind) -> (plan: Vec<(PartShape, Tint)>)
    ensures
        plan@ == scattered_blueprint(k),
{
    let plan = match k {
        ScatteredKind::TallPillar => vec![(PartShape::Pillar, Tint::Fresh)],
        ScatteredKind::CubeObstacle => vec![(PartShape::Cube, Tint::Fresh)],
        ScatteredKind::StandaloneGate => vec![(PartShape::Gate, Tint::Fresh)],
        ScatteredKind::ElevatedGate => vec![
            (PartShape::Gate, Tint::Accent),
            (PartShape::Pillar, Tint::Structure),
            (PartShape::Pillar, Tint::Structure),
        ],
        ScatteredKind::SplitCube => vec![
            (PartShape::Cube, Tint::Fresh),
            (PartShape::Cube, Tint::Fresh),
            (PartShape::Gate, Tint::Accent),
        ],
        ScatteredKind::Archway => vec![
            (PartShape::Pillar, Tint::Shared),
            (PartShape::Pillar, Tint::Shared),
            (PartShape::Wall, Tint::Shared),
        ],
    };
    assert(plan@ =~= scattered_blueprint(k));
    plan
}

/// Carries out a plan: fixed tints take their palette colour, a fresh tint
/// a bright colour picked for the part, and the shared tint one bright
/// colour picked when the first shared part comes.
fn build_parts(plan: &Vec<(PartShape, Tint)>, pal: &Palette, rng: &mut rand::rngs::ThreadRng) -> (parts: Vec<Part>)
    ensures
        follows(parts@, plan@, *pal),
{
    let mut parts: Vec<Part> = Vec::new();
    let mut shared: Option<Color> = None;
    let n = plan.len();
    for i in 0..n
        invariant
            n == plan.len(),
            parts.len() == i,
            forall|j: int|
                0 <= j < i ==> #[trigger] parts@[j].shape == plan@[j].0 && pal.allows(
                    plan@[j].1,
                    parts@[j].color,
                ),
            shared is None ==> forall|j: int| 0 <= j < i ==> plan@[j].1 != Tint::Shared,
            shared matches Some(c) ==> pal.is_bright(c) && forall|j: int|
                0 <= j < i && plan@[j].1 == Tint::Shared ==> #[trigger] parts@[j].color == c,
    {
        let (shape, tint) = plan[i];
        let color = match tint {
            Tint::Primary => pal.primary,
            Tint::Secondary => pal.secondary,
            Tint::Accent => pal.accent,
            Tint::Structure => pal.structure,
            Tint::Dark => pal.dark,
            Tint::Fresh => pal.pick(rng),
            Tint::Shared => match shared {
                Some(c) => c,
                None => {
                    let c = pal.pick(rng);
                    shared = Some(c);
                    c
                },
            },
        };
        parts.push(Part { shape, color });
    }
    parts
}

/// The parts of a landmark in the palette's colours.
pub fn landmark_parts(k: LandmarkKind, pal: &Palette, rng: &mut rand::rngs::ThreadRng) -> (parts: Vec<Part>)
    ensures
        follows(parts@, landmark_blueprint(k), *pal),
        landmark_form(k, *pal, parts@),
{
    let plan = landmark_plan(k);
    let parts = build_parts(&plan, pal, rng);
    proof {
        lemma_landmark_form(k, *pal, parts@);
    }
    parts
}

/// The parts a cluster has once.  Shared and fresh colours are picked
/// when this is called.
pub fn cluster_parts(k: ClusterKind, pal: &Palette, rng: &mut rand::rngs::ThreadRng) -> (parts: Vec<Part>)
    ensures
        follows(parts@, cluster_blueprint(k), *pal),
        cluster_form(k, *pal, parts@),
{
    let plan = cluster_plan(k);
    let parts = build_parts(&plan, pal, rng);
    proof {
        lemma_cluster_form(k, *pal, parts@);
    }
    parts
}

/// The parts of one repeated unit of a cluster.  Shared and fresh colours
/// are picked when this is called, afresh for every unit.
pub fn cluster_unit_parts(k: ClusterKind, pal: &Palette, rng: &mut rand::rngs::ThreadRng) -> (parts: Vec<Part>)
    ensures
        follows(parts@, cluster_unit_blueprint(k), *pal),
        cluster_unit_form(k, *pal, parts@),
{
    let plan = cluster_unit_plan(k);
    let parts = build_parts(&plan, pal, rng);
    proof {
        lemma_cluster_unit_form(k, *pal, parts@);
    }
    parts
}

/// The parts of a scattered obstacle.  Shared and fresh colours are picked
/// when this is called.
pub fn scattered_parts(k: ScatteredKind, pal: &Palette, rng: &mut rand::rngs::ThreadRng) -> (parts: Vec<Part>)
    ensures
        follows(parts@, scattered_blueprint(k), *pal),
        scattered_form(k, *pal, parts@),
{
    let plan = scattered_plan(k);
    let parts = build_parts(&plan, pal, rng);
    proof {
        lemma_scattered_form(k, *pal, parts@);
    }
    parts
}

// ─── Laws ───

/// Every landmark form has a gate to fly through.
pub proof fn lemma_every_landmark_has_gate(k: LandmarkKind)
    ensures
        exists|i: int|
            0 <= i < landmark_blueprint(k).len() && (#[trigger] landmark_blueprint(k)[i]).0
                == PartShape::Gate,
{
    let b = landmark_blueprint(k);
    assert(b[b.len() - 1].0 == PartShape::Gate);
}

/// A landmark takes no random colours: two part lists that carry out the
/// same landmark with the same palette are the same.
pub proof fn lemma_landmark_parts_determined(
    k: LandmarkKind,
    pal: Palette,
    a: Seq<Part>,
    b: Seq<Part>,
)
    requires
        follows(a, landmark_blueprint(k), pal),
        follows(b, landmark_blueprint(k), pal),
    ensures
        a == b,
{
    let plan = landmark_blueprint(k);
    assert forall|i: int| 0 <= i < a.len() implies a[i] == b[i] by {
        assert(a[i].shape == plan[i].0 && pal.allows(plan[i].1, a[i].color));
        assert(b[i].shape == plan[i].0 && pal.allows(plan[i].1, b[i].color));
        assert(plan[i].1 != Tint::Fresh && plan[i].1 != Tint::Shared);
    }
    assert(a =~= b);
}

/// Every part of an object is painted in one of the five colours of the
/// palette.
pub proof fn lemma_parts_in_palette_colors(parts: Seq<Part>, plan: Seq<(PartShape, Tint)>, pal: Palette, i: int)
    requires
        follows(parts, plan, pal),
        0 <= i < parts.len(),
    ensures
        parts[i].color == pal.primary || parts[i].color == pal.secondary || parts[i].color
            == pal.accent || parts[i].color == pal.structure || parts[i].color == pal.dark,
{
    assert(parts[i].shape == plan[i].0 && pal.allows(plan[i].1, parts[i].color));
}

/// An archway, alone or in a row, has its two pillars and its beam in one
/// bright colour.
pub proof fn lemma_archway_one_color(parts: Seq<Part>, pal: Palette)
    requires
        follows(parts, scattered_blueprint(ScatteredKind::Archway), pal)
            || follows(parts, cluster_unit_blueprint(ClusterKind::ArchwayRow), pal),
    ensures
        parts.len() == 3,
        parts[0].color == parts[1].color,
        parts[1].color == parts[2].color,
        pal.is_bright(parts[0].color),
{
    let plan = scattered_blueprint(ScatteredKind::Archway);
    assert(cluster_unit_blueprint(ClusterKind::ArchwayRow) =~= plan);
    assert(parts[0].shape == plan[0].0 && pal.allows(plan[0].1, parts[0].color));
    assert(parts[0].color == parts[1].color);
    assert(parts[1].color == parts[2].color);
}

} // verus!
