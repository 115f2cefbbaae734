use procedural_course::color::Color;
use procedural_course::course::{
    roll_archway_count, roll_forest_pillar_count, roll_ring_pillar_count, roll_slalom_pillar_count,
    MAX_ARCHWAYS, MAX_FOREST_PILLARS, MAX_RING_PILLARS, MAX_SLALOM_PILLARS, MIN_ARCHWAYS,
    MIN_FOREST_PILLARS, MIN_RING_PILLARS, MIN_SLALOM_PILLARS,
    roll_cluster_count, roll_gate_count, roll_scattered_count, roll_sequence_length,
    sequence_allowed_after, CLUSTER_TRIES, MAX_CLUSTERS, MAX_GATES, MAX_SCATTERED, MAX_SEQUENCE,
    MIN_CLUSTERS, MIN_GATES, MIN_SCATTERED, MIN_SEQUENCE, SCATTERED_TRIES,
};
use procedural_course::kinds::{
    cluster_kind, height_band, landmark_kind, roll_cluster_kind, roll_height_band,
    roll_landmark_kind, roll_scattered_kind, scattered_kind, ClusterKind, HeightBand,
    LandmarkKind, ScatteredKind, CLUSTER_ROLLS, HEIGHT_ROLLS, SCATTERED_ROLLS,
};
use procedural_course::palette::{palette_at, random_palette, Palette, PALETTE_COUNT};
use procedural_course::placement::PlacementRounds;

fn c(r: u8, g: u8, b: u8) -> Color {
    Color::new(r, g, b)
}

fn table() -> Vec<Palette> {
    (0..PALETTE_COUNT).map(palette_at).collect()
}

#[test]
fn color_new_keeps_channels() {
    let col = Color::new(1, 2, 3);
    assert_eq!((col.r, col.g, col.b), (1, 2, 3));
}

#[test]
fn palette_table_entries() {
    let p = table();
    assert_eq!(p[0].primary, c(255, 100, 30));
    assert_eq!(p[0].secondary, c(30, 150, 255));
    assert_eq!(p[0].accent, c(255, 220, 30));
    assert_eq!(p[1].primary, c(30, 220, 80));
    assert_eq!(p[1].secondary, c(180, 50, 220));
    assert_eq!(p[1].accent, c(255, 80, 180));
    assert_eq!(p[2].primary, c(30, 220, 220));
    assert_eq!(p[2].secondary, c(220, 40, 40));
    assert_eq!(p[2].accent, c(255, 220, 30));
    assert_eq!(p[3].primary, c(255, 100, 30));
    assert_eq!(p[3].secondary, c(30, 220, 80));
    assert_eq!(p[3].accent, c(30, 150, 255));
    assert_eq!(p[4].primary, c(180, 50, 220));
    assert_eq!(p[4].secondary, c(30, 220, 220));
    assert_eq!(p[4].accent, c(255, 100, 30));
    for pal in &p {
        assert_eq!(pal.structure, c(90, 90, 90));
        assert_eq!(pal.dark, c(60, 60, 60));
    }
}

#[test]
fn random_palette_comes_from_table() {
    let mut rng = rand::rng();
    let t = table();
    let mut seen = [false; PALETTE_COUNT];
    for _ in 0..500 {
        let p = random_palette(&mut rng);
        let i = t.iter().position(|q| *q == p).expect("palette outside the table");
        seen[i] = true;
    }
    // With 500 draws every palette shows up (failure chance below 1e-40).
    assert!(seen.iter().all(|s| *s));
}

#[test]
fn color_for_roll_selects_brights() {
    let p = palette_at(2);
    assert_eq!(p.color_for_roll(0), p.primary);
    assert_eq!(p.color_for_roll(1), p.secondary);
    assert_eq!(p.color_for_roll(2), p.accent);
    assert_eq!(p.color_for_roll(7), p.accent);
}

#[test]
fn pick_gives_bright_colors_only() {
    let mut rng = rand::rng();
    for pal in table() {
        let mut seen = [false; 3];
        for _ in 0..300 {
            let col = pal.pick(&mut rng);
            assert_ne!(col, pal.structure);
            assert_ne!(col, pal.dark);
            let slot = [pal.primary, pal.secondary, pal.accent]
                .iter()
                .position(|b| *b == col)
                .expect("not a bright colour");
            seen[slot] = true;
        }
        assert!(seen.iter().all(|s| *s));
    }
}

#[test]
fn circuit_colors_cycle() {
    let p = palette_at(0);
    let expected = [p.primary, p.secondary, p.accent, p.primary, p.secondary, p.accent, p.primary];
    for (i, e) in expected.iter().enumerate() {
        assert_eq!(p.circuit_color(i), *e);
    }
}

#[test]
fn consecutive_circuit_gates_differ_in_every_palette() {
    for p in table() {
        for i in 0..20 {
            assert_ne!(p.circuit_color(i), p.circuit_color(i + 1));
            assert_eq!(p.circuit_color(i), p.circuit_color(i + 3));
        }
    }
}

#[test]
fn landmark_kinds_by_roll() {
    assert_eq!(landmark_kind(0), LandmarkKind::Tower);
    assert_eq!(landmark_kind(1), LandmarkKind::StackedCubes);
    assert_eq!(landmark_kind(2), LandmarkKind::PillarBridge);
}

#[test]
fn cluster_kinds_by_roll() {
    let expected = [
        ClusterKind::PillarForest,
        ClusterKind::MultiLevelBando,
        ClusterKind::TwinTowers,
        ClusterKind::PillarSlalom,
        ClusterKind::RampPair,
        ClusterKind::ArchwayRow,
        ClusterKind::StackedGates,
        ClusterKind::CubeCanyon,
        ClusterKind::CubeBridge,
        ClusterKind::PillarRing,
        ClusterKind::Pyramid,
        ClusterKind::ElevatedPlatform,
        ClusterKind::PillarSlalom,
    ];
    assert_eq!(expected.len(), CLUSTER_ROLLS);
    for (roll, k) in expected.iter().enumerate() {
        assert_eq!(cluster_kind(roll), *k);
    }
}

#[test]
fn cluster_shares_two_for_slalom() {
    let slalom = (0..CLUSTER_ROLLS).filter(|r| cluster_kind(*r) == ClusterKind::PillarSlalom).count();
    let pyramid = (0..CLUSTER_ROLLS).filter(|r| cluster_kind(*r) == ClusterKind::Pyramid).count();
    assert_eq!(slalom, 2);
    assert_eq!(pyramid, 1);
}

#[test]
fn scattered_kinds_by_roll() {
    let expected = [
        ScatteredKind::TallPillar,
        ScatteredKind::CubeObstacle,
        ScatteredKind::StandaloneGate,
        ScatteredKind::ElevatedGate,
        ScatteredKind::Archway,
        ScatteredKind::SplitCube,
        ScatteredKind::Archway,
    ];
    assert_eq!(expected.len(), SCATTERED_ROLLS);
    for (roll, k) in expected.iter().enumerate() {
        assert_eq!(scattered_kind(roll), *k);
    }
}

#[test]
fn height_bands_by_roll() {
    let expected = [
        HeightBand::Ground,
        HeightBand::Ground,
        HeightBand::Ground,
        HeightBand::Ground,
        HeightBand::Ground,
        HeightBand::Ground,
        HeightBand::Mid,
        HeightBand::Mid,
        HeightBand::High,
        HeightBand::Ground,
    ];
    assert_eq!(expected.len(), HEIGHT_ROLLS);
    for (roll, b) in expected.iter().enumerate() {
        assert_eq!(height_band(roll), *b);
    }
    let ground = (0..HEIGHT_ROLLS).filter(|r| height_band(*r) == HeightBand::Ground).count();
    assert_eq!(ground, 7);
}

#[test]
fn rolled_kinds_cover_every_form() {
    let mut rng = rand::rng();
    let mut landmarks = Vec::new();
    let mut clusters = Vec::new();
    let mut scattered = Vec::new();
    let mut bands = Vec::new();
    for _ in 0..2000 {
        let l = roll_landmark_kind(&mut rng);
        if !landmarks.contains(&l) {
            landmarks.push(l);
        }
        let k = roll_cluster_kind(&mut rng);
        if !clusters.contains(&k) {
            clusters.push(k);
        }
        let s = roll_scattered_kind(&mut rng);
        if !scattered.contains(&s) {
            scattered.push(s);
        }
        let b = roll_height_band(&mut rng);
        if !bands.contains(&b) {
            bands.push(b);
        }
    }
    assert_eq!(landmarks.len(), 3);
    assert_eq!(clusters.len(), 12);
    assert_eq!(scattered.len(), 6);
    assert_eq!(bands.len(), 3);
}

#[test]
fn course_counts_stay_in_their_ranges() {
    let mut rng = rand::rng();
    let mut gate_counts = Vec::new();
    for _ in 0..500 {
        let g = roll_gate_count(&mut rng);
        assert!((MIN_GATES..=MAX_GATES).contains(&g));
        if !gate_counts.contains(&g) {
            gate_counts.push(g);
        }
        let n = roll_cluster_count(&mut rng);
        assert!((MIN_CLUSTERS..=MAX_CLUSTERS).contains(&n));
        let s = roll_scattered_count(&mut rng);
        assert!((MIN_SCATTERED..=MAX_SCATTERED).contains(&s));
        let q = roll_sequence_length(&mut rng);
        assert!((MIN_SEQUENCE..=MAX_SEQUENCE).contains(&q));
    }
    assert_eq!(gate_counts.len(), 5);
    assert_eq!((MIN_GATES, MAX_GATES), (10, 14));
    assert_eq!((MIN_CLUSTERS, MAX_CLUSTERS), (4, 6));
    assert_eq!((MIN_SCATTERED, MAX_SCATTERED), (12, 20));
    assert_eq!((MIN_SEQUENCE, MAX_SEQUENCE), (1, 2));
}

#[test]
fn sequences_never_follow_the_last_gate() {
    assert!(sequence_allowed_after(0, 10));
    assert!(sequence_allowed_after(8, 10));
    assert!(!sequence_allowed_after(9, 10));
    assert!(!sequence_allowed_after(12, 10));
}

#[test]
fn placement_gives_up_after_its_tries() {
    let mut s = PlacementRounds::new(2, 3);
    assert!(!s.is_done());
    s.record(false);
    s.record(false);
    s.record(false);
    assert!(!s.is_done());
    assert_eq!(s.placed(), 0);
    s.record(true);
    assert!(s.is_done());
    assert_eq!(s.placed(), 1);
    assert_eq!(s.attempts(), 4);
}

#[test]
fn placement_moves_on_after_a_success() {
    let mut s = PlacementRounds::new(3, CLUSTER_TRIES);
    s.record(true);
    s.record(false);
    s.record(true);
    s.record(true);
    assert!(s.is_done());
    assert_eq!(s.placed(), 3);
    assert_eq!(s.attempts(), 4);
}

#[test]
fn placement_offers_are_bounded() {
    let mut s = PlacementRounds::new(4, SCATTERED_TRIES);
    let mut steps = 0;
    while !s.is_done() {
        s.record(false);
        steps += 1;
    }
    assert_eq!(steps, 4 * SCATTERED_TRIES);
    assert_eq!(s.placed(), 0);
    let empty = PlacementRounds::new(0, 1);
    assert!(empty.is_done());
}

#[test]
fn cluster_piece_counts_stay_in_their_ranges() {
    let mut rng = rand::rng();
    let mut forest = Vec::new();
    let mut archways = Vec::new();
    let mut ring = Vec::new();
    let mut slalom = Vec::new();
    for _ in 0..500 {
        let f = roll_forest_pillar_count(&mut rng);
        assert!((MIN_FOREST_PILLARS..=MAX_FOREST_PILLARS).contains(&f));
        if !forest.contains(&f) {
            forest.push(f);
        }
        let a = roll_archway_count(&mut rng);
        assert!((MIN_ARCHWAYS..=MAX_ARCHWAYS).contains(&a));
        if !archways.contains(&a) {
            archways.push(a);
        }
        let r = roll_ring_pillar_count(&mut rng);
        assert!((MIN_RING_PILLARS..=MAX_RING_PILLARS).contains(&r));
        if !ring.contains(&r) {
            ring.push(r);
        }
        let s = roll_slalom_pillar_count(&mut rng);
        assert!((MIN_SLALOM_PILLARS..=MAX_SLALOM_PILLARS).contains(&s));
        if !slalom.contains(&s) {
            slalom.push(s);
        }
    }
    assert_eq!((MIN_FOREST_PILLARS, MAX_FOREST_PILLARS), (4, 7));
    assert_eq!((MIN_ARCHWAYS, MAX_ARCHWAYS), (2, 4));
    assert_eq!((MIN_RING_PILLARS, MAX_RING_PILLARS), (6, 8));
    assert_eq!((MIN_SLALOM_PILLARS, MAX_SLALOM_PILLARS), (4, 6));
    assert_eq!((forest.len(), archways.len(), ring.len(), slalom.len()), (4, 3, 3, 3));
}
