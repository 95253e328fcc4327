use fireworks::burst::{
    sparks, Burst, Spoke, MAX_MAGNITUDE, MAX_SPARKS, MIN_MAGNITUDE, MIN_SPARKS,
};
use fireworks::engine::Engine;
use fireworks::pellet::{BlastType, Pellet};

fn velocity_of(spoke: &Spoke) -> (i32, i32) {
    let step = std::f64::consts::PI * 2.0 / (spoke.count as f64);
    let angle = spoke.index as f64 * step * spoke.stride as f64;
    let speed = spoke.magnitude as f64;
    let x = speed * (spoke.scale.0 as f64 / 100.0) * angle.sin();
    let y = speed * (spoke.scale.1 as f64 / 100.0) * angle.cos();
    (x as i32, y as i32)
}

fn velocities_of(burst: &Burst) -> Vec<(i32, i32)> {
    let mut all = Vec::new();
    for spoke in burst.spokes() {
        all.push(velocity_of(&spoke));
    }
    all
}

fn rings_by_the_formulas(count: i32, magnitude: i32) -> Vec<(i32, i32)> {
    let magnitude = magnitude as f64;
    let coeff = std::f64::consts::PI * 2.0 / (count as f64);
    let mut all = Vec::new();
    for r in 0..count {
        let x = (magnitude * (r as f64 * coeff).sin()) as i32;
        let y = (magnitude * 0.7 * (r as f64 * coeff).cos()) as i32;
        all.push((x, y));
    }
    for r in 0..count / 2 {
        let x = (magnitude * 0.5 * (r as f64 * coeff * 2.0).sin()) as i32;
        let y = (magnitude * 0.35 * (r as f64 * coeff * 2.0).cos()) as i32;
        all.push((x, y));
    }
    all
}

#[test]
fn burst_constants_have_their_values() {
    assert_eq!(MIN_SPARKS, 10);
    assert_eq!(MAX_SPARKS, 16);
    assert_eq!(MIN_MAGNITUDE, 1000);
    assert_eq!(MAX_MAGNITUDE, 4000);
}

#[test]
fn drawn_burst_is_within_its_ranges() {
    let mut counts = Vec::new();
    let mut magnitudes = Vec::new();
    let mut round = 0;
    while round < 500 {
        let burst = Burst::draw();
        assert!(10 <= burst.count && burst.count < 16);
        assert!(1000 <= burst.magnitude && burst.magnitude < 4000);
        if !counts.contains(&burst.count) {
            counts.push(burst.count);
        }
        if !magnitudes.contains(&burst.magnitude) {
            magnitudes.push(burst.magnitude);
        }
        round += 1;
    }
    assert!(counts.len() > 1);
    assert!(magnitudes.len() > 1);
}

#[test]
fn spokes_lay_out_the_outer_then_the_inner_ring() {
    let plan = Burst { count: 12, magnitude: 2000 }.spokes();
    assert_eq!(plan.len(), 18);
    for r in 0..12 {
        assert_eq!(
            plan[r],
            Spoke { index: r as i32, count: 12, stride: 1, magnitude: 2000, scale: (100, 70) }
        );
    }
    for r in 0..6 {
        assert_eq!(
            plan[12 + r],
            Spoke { index: r as i32, count: 12, stride: 2, magnitude: 2000, scale: (50, 35) }
        );
    }
}

#[test]
fn inner_ring_has_half_the_sparks_rounded_down() {
    assert_eq!(Burst { count: 10, magnitude: 1000 }.spokes().len(), 15);
    assert_eq!(Burst { count: 11, magnitude: 1000 }.spokes().len(), 16);
    assert_eq!(Burst { count: 13, magnitude: 1000 }.spokes().len(), 19);
    assert_eq!(Burst { count: 15, magnitude: 3999 }.spokes().len(), 22);
    let odd = Burst { count: 11, magnitude: 1500 }.spokes();
    assert_eq!(odd[10], Spoke { index: 10, count: 11, stride: 1, magnitude: 1500, scale: (100, 70) });
    assert_eq!(odd[11], Spoke { index: 0, count: 11, stride: 2, magnitude: 1500, scale: (50, 35) });
    assert_eq!(odd[15], Spoke { index: 4, count: 11, stride: 2, magnitude: 1500, scale: (50, 35) });
}

#[test]
fn tiny_and_empty_bursts() {
    assert_eq!(Burst { count: 1, magnitude: 1000 }.spokes().len(), 1);
    assert_eq!(Burst { count: 2, magnitude: 1000 }.spokes().len(), 3);
    assert!(Burst { count: 0, magnitude: 1000 }.spokes().is_empty());
    assert!(Burst { count: -1, magnitude: 1000 }.spokes().is_empty());
    assert!(Burst { count: -7, magnitude: 1000 }.spokes().is_empty());
}

#[test]
fn spoke_velocities_match_the_ring_formulas() {
    for count in 10..16 {
        for magnitude in [1000, 1357, 2000, 2718, 3999] {
            let burst = Burst { count, magnitude };
            assert_eq!(velocities_of(&burst), rings_by_the_formulas(count, magnitude));
        }
    }
}

#[test]
fn twelve_sparks_at_two_thousand() {
    let v = velocities_of(&Burst { count: 12, magnitude: 2000 });
    assert_eq!(v.len(), 18);
    assert_eq!(v[0], (0, 1400));
    assert_eq!(v[1].1, 1212);
    assert_eq!(v[2].0, 1732);
    assert_eq!(v[4].0, 1732);
    assert_eq!(v[5].1, -1212);
    assert_eq!(v[7].1, -1212);
    assert_eq!(v[8].0, -1732);
    assert_eq!(v[10].0, -1732);
    assert_eq!(v[11].1, 1212);
    assert_eq!(v[12], (0, 700));
    assert_eq!(v[13].0, 866);
    assert_eq!(v[14].0, 866);
    assert_eq!(v[16].0, -866);
    assert_eq!(v[17].0, -866);
    let quarter = std::f64::consts::PI / 6.0;
    for r in 0..12 {
        let x = 2000.0 * (r as f64 * quarter).sin();
        let y = 1400.0 * (r as f64 * quarter).cos();
        assert!((v[r].0 as f64 - x).abs() < 1.0);
        assert!((v[r].1 as f64 - y).abs() < 1.0);
    }
    for r in 0..6 {
        let x = 1000.0 * (r as f64 * quarter * 2.0).sin();
        let y = 700.0 * (r as f64 * quarter * 2.0).cos();
        assert!((v[12 + r].0 as f64 - x).abs() < 1.0);
        assert!((v[12 + r].1 as f64 - y).abs() < 1.0);
    }
}

#[test]
fn sparks_are_inert_and_start_where_the_blast_is() {
    let parent = Pellet { pos: (44500, 6900), vel: (250, 0), blast_type: BlastType::Normal };
    let bystander = Pellet { pos: (1, 2), vel: (3, 4), blast_type: BlastType::Inert };
    let mut pellets = vec![bystander, parent];
    let burst = Burst { count: 12, magnitude: 2000 };
    let velocities = velocities_of(&burst);
    sparks(&mut pellets, 1, &velocities);
    assert_eq!(pellets.len(), 2 + 12 + 6);
    assert_eq!(pellets[0], bystander);
    assert_eq!(pellets[1], parent);
    for i in 0..18 {
        assert_eq!(
            pellets[2 + i],
            Pellet { pos: (44500, 6900), vel: velocities[i], blast_type: BlastType::Inert }
        );
    }
}

#[test]
fn sparks_of_no_velocities_add_nothing() {
    let parent = Pellet { pos: (5, 6), vel: (0, 0), blast_type: BlastType::Normal };
    let mut pellets = vec![parent];
    sparks(&mut pellets, 0, &Vec::new());
    assert_eq!(pellets, vec![parent]);
}

#[test]
fn draw_bursts_draws_one_burst_for_each_exploder() {
    let mut engine = Engine::new();
    assert!(engine.draw_bursts().is_empty());
    let p = Pellet { pos: (0, 0), vel: (0, 0), blast_type: BlastType::Normal };
    engine.pellets = vec![p, p, p, p];
    engine.exploders = vec![0, 2, 3];
    engine.vanishers = vec![0, 2, 3];
    let bursts = engine.draw_bursts();
    assert_eq!(bursts.len(), 3);
    for burst in bursts {
        assert!(10 <= burst.count && burst.count < 16);
        assert!(1000 <= burst.magnitude && burst.magnitude < 4000);
    }
}

#[test]
fn explode_adds_the_sparks_of_every_blast_in_turn() {
    let a = Pellet { pos: (100, 200), vel: (1, 0), blast_type: BlastType::Normal };
    let b = Pellet { pos: (300, 400), vel: (2, 5), blast_type: BlastType::Normal };
    let c = Pellet { pos: (500, 600), vel: (3, -9), blast_type: BlastType::Inert };
    let mut engine = Engine::new();
    engine.pellets = vec![a, c, b];
    engine.exploders = vec![0, 2];
    engine.vanishers = vec![0, 2];
    let velocities = vec![vec![(10, 11), (12, 13)], vec![(20, 21), (22, 23), (24, 25)]];
    engine.explode(&velocities);
    let spark = |pos: (i32, i32), vel: (i32, i32)| Pellet { pos, vel, blast_type: BlastType::Inert };
    assert_eq!(
        engine.pellets,
        vec![
            a,
            c,
            b,
            spark((100, 200), (10, 11)),
            spark((100, 200), (12, 13)),
            spark((300, 400), (20, 21)),
            spark((300, 400), (22, 23)),
            spark((300, 400), (24, 25)),
        ]
    );
    assert_eq!(engine.exploders, vec![0, 2]);
    assert_eq!(engine.vanishers, vec![0, 2]);
}

#[test]
fn explode_without_exploders_adds_nothing() {
    let c = Pellet { pos: (500, 600), vel: (3, -9), blast_type: BlastType::Inert };
    let mut engine = Engine::new();
    engine.pellets = vec![c];
    engine.explode(&Vec::new());
    assert_eq!(engine.pellets, vec![c]);
}
