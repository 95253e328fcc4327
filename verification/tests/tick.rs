use fireworks::burst::{Burst, Spoke};
use fireworks::engine::{Engine, Request};
use fireworks::launch::place;
use fireworks::pellet::{BlastType, Draw, Pellet};

fn velocity_of(spoke: &Spoke) -> (i32, i32) {
    let step = std::f64::consts::PI * 2.0 / (spoke.count as f64);
    let angle = spoke.index as f64 * step * spoke.stride as f64;
    let speed = spoke.magnitude as f64;
    let x = speed * (spoke.scale.0 as f64 / 100.0) * angle.sin();
    let y = speed * (spoke.scale.1 as f64 / 100.0) * angle.cos();
    (x as i32, y as i32)
}

fn ring_velocities(burst: &Burst) -> Vec<(i32, i32)> {
    let mut all = Vec::new();
    for spoke in burst.spokes() {
        all.push(velocity_of(&spoke));
    }
    all
}

fn key(p: &Pellet) -> (i32, i32, i32, i32, bool) {
    (p.pos.0, p.pos.1, p.vel.0, p.vel.1, p.blast_type == BlastType::Inert)
}

fn in_order(pellets: &Vec<Pellet>) -> Vec<Pellet> {
    let mut sorted = pellets.clone();
    sorted.sort_by_key(key);
    sorted
}

fn active(pos: (i32, i32), vel: (i32, i32)) -> Pellet {
    Pellet { pos, vel, blast_type: BlastType::Normal }
}

fn inert(pos: (i32, i32), vel: (i32, i32)) -> Pellet {
    Pellet { pos, vel, blast_type: BlastType::Inert }
}

#[test]
fn new_engine_is_empty_and_idle() {
    let engine = Engine::new();
    assert!(engine.pellets.is_empty());
    assert!(engine.exploders.is_empty());
    assert!(engine.vanishers.is_empty());
    assert!(engine.can_step());
}

#[test]
fn step_of_an_empty_engine_does_nothing() {
    let mut engine = Engine::new();
    let requests = engine.step(24);
    assert_eq!(requests, vec![Request::Clear]);
    assert!(engine.pellets.is_empty());
    assert!(engine.exploders.is_empty());
    assert!(engine.vanishers.is_empty());
}

#[test]
fn step_moves_every_pellet_and_marks_by_the_new_state() {
    let mut engine = Engine::new();
    engine.pellets = vec![
        active((40000, 24000), (300, -2000)),
        active((10000, 5000), (-100, -100)),
        inert((7000, 24950), (0, 80)),
        inert((3000, 3000), (1000, -700)),
        active((9000, 30000), (0, -500)),
    ];
    let requests = engine.step(24);
    assert_eq!(
        engine.pellets,
        vec![
            active((40300, 22000), (300, -1900)),
            active((9900, 4900), (-100, 0)),
            inert((7000, 25030), (40, 80)),
            inert((4000, 2300), (840, -544)),
            active((9000, 29500), (0, -400)),
        ]
    );
    assert_eq!(engine.exploders, vec![1]);
    assert_eq!(engine.vanishers, vec![1, 2, 4]);
    assert_eq!(
        requests,
        vec![
            Request::Clear,
            Request::Glyph(Draw { row: 22, col: 40, glyph: 'o' }),
            Request::Glyph(Draw { row: 4, col: 9, glyph: 'o' }),
            Request::Glyph(Draw { row: 25, col: 7, glyph: '.' }),
            Request::Glyph(Draw { row: 2, col: 4, glyph: '.' }),
            Request::Glyph(Draw { row: 29, col: 9, glyph: 'o' }),
        ]
    );
}

#[test]
fn step_judges_after_the_move_not_before() {
    let mut engine = Engine::new();
    engine.pellets = vec![active((0, 0), (0, -101)), inert((0, 24500), (0, 400))];
    engine.step(24);
    assert!(engine.exploders.is_empty());
    assert!(engine.vanishers.is_empty());
    assert_eq!(engine.pellets[0].vel.1, -1);
    assert_eq!(engine.pellets[1].pos.1, 24900);
    engine.step(24);
    assert_eq!(engine.exploders, vec![0]);
    assert_eq!(engine.vanishers, vec![0, 1]);
}

#[test]
fn can_step_decides_whether_every_pellet_can_move() {
    let mut engine = Engine::new();
    engine.pellets = vec![active((0, 0), (1, 1)), inert((5, 5), (-3, 2))];
    assert!(engine.can_step());
    engine.pellets.push(inert((i32::MAX, 0), (1, 0)));
    assert!(!engine.can_step());
    engine.pellets[2] = active((0, 0), (0, i32::MAX));
    assert!(!engine.can_step());
    engine.pellets[2] = active((0, 0), (0, i32::MAX - 100));
    assert!(engine.can_step());
}

#[test]
fn whole_tick_leaves_the_continuing_and_the_sparks() {
    let mut engine = Engine::new();
    engine.pellets = vec![
        active((40000, 24000), (300, -2000)),
        active((10000, 5000), (-100, -100)),
        inert((7000, 24950), (0, 80)),
        inert((3000, 3000), (1000, -700)),
    ];
    engine.step(24);
    assert_eq!(engine.exploders, vec![1]);
    assert_eq!(engine.vanishers, vec![1, 2]);
    engine.explode(&vec![vec![(10, 20), (30, 40)]]);
    assert_eq!(engine.pellets.len(), 6);
    engine.compact();
    assert!(engine.exploders.is_empty());
    assert!(engine.vanishers.is_empty());
    assert_eq!(
        in_order(&engine.pellets),
        in_order(&vec![
            active((40300, 22000), (300, -1900)),
            inert((4000, 2300), (840, -544)),
            inert((9900, 4900), (10, 20)),
            inert((9900, 4900), (30, 40)),
        ])
    );
}

#[test]
fn vanished_pellet_is_gone_at_the_next_tick() {
    let mut engine = Engine::new();
    let faller = inert((7000, 24950), (0, 80));
    engine.pellets = vec![inert((3000, 3000), (0, 0)), faller, active((1000, 26000), (0, -900))];
    engine.step(24);
    assert_eq!(engine.vanishers, vec![1, 2]);
    assert!(engine.exploders.is_empty());
    engine.explode(&Vec::new());
    engine.compact();
    assert_eq!(engine.pellets, vec![inert((3000, 3000), (40, 16))]);
    let requests = engine.step(24);
    assert_eq!(requests, vec![Request::Clear, Request::Glyph(Draw { row: 3, col: 3, glyph: '.' })]);
    assert!(engine.vanishers.is_empty());
    for p in &engine.pellets {
        assert!(p.pos.1 / 1000 <= 24);
    }
}

#[test]
fn firework_rises_bursts_into_eighteen_sparks_and_is_removed() {
    let burst = Burst { count: 12, magnitude: 2000 };
    let mut engine = Engine::new();
    engine.pellets.push(place(5, 80, 24, (250, -1800)));
    let mut ticks = 0;
    let mut blast_at = None;
    while blast_at.is_none() {
        assert!(engine.can_step());
        let requests = engine.step(24);
        ticks += 1;
        assert_eq!(requests.len(), 2);
        assert_eq!(requests[0], Request::Clear);
        assert!(matches!(requests[1], Request::Glyph(Draw { glyph: 'o', .. })));
        if engine.exploders.is_empty() {
            assert!(engine.vanishers.is_empty());
            assert!(engine.pellets[0].vel.1 < 0);
            engine.explode(&Vec::new());
        } else {
            assert_eq!(engine.exploders, vec![0]);
            assert_eq!(engine.vanishers, vec![0]);
            assert_eq!(engine.draw_bursts().len(), 1);
            blast_at = Some(engine.pellets[0].pos);
            engine.explode(&vec![ring_velocities(&burst)]);
        }
        engine.compact();
        assert!(engine.exploders.is_empty());
        assert!(engine.vanishers.is_empty());
    }
    assert_eq!(ticks, 18);
    assert_eq!(blast_at, Some((44500, 6900)));
    assert_eq!(engine.pellets.len(), 18);
    let magnitude = 2000.0_f64;
    let coeff = std::f64::consts::PI * 2.0 / 12.0;
    let mut expected = Vec::new();
    for r in 0..12 {
        let x = (magnitude * (r as f64 * coeff).sin()) as i32;
        let y = (magnitude * 0.7 * (r as f64 * coeff).cos()) as i32;
        expected.push(inert((44500, 6900), (x, y)));
    }
    for r in 0..6 {
        let x = (magnitude * 0.5 * (r as f64 * coeff * 2.0).sin()) as i32;
        let y = (magnitude * 0.35 * (r as f64 * coeff * 2.0).cos()) as i32;
        expected.push(inert((44500, 6900), (x, y)));
    }
    assert_eq!(in_order(&engine.pellets), in_order(&expected));
    assert!(engine.pellets.contains(&inert((44500, 6900), (0, 1400))));
    assert!(engine.pellets.contains(&inert((44500, 6900), (0, 700))));
    assert!(engine.pellets.contains(&inert((44500, 6900), (0, -1400))));
    assert!(engine.pellets.contains(&inert((44500, 6900), (0, -700))));
}

#[test]
fn same_firework_runs_the_same_way_twice() {
    let mut runs = Vec::new();
    for _ in 0..2 {
        let mut engine = Engine::new();
        engine.pellets.push(place(3, 120, 40, (-400, -2500)));
        let mut history = Vec::new();
        for _ in 0..60 {
            engine.step(40);
            let mut given = Vec::new();
            for _ in &engine.exploders {
                given.push(ring_velocities(&Burst { count: 12, magnitude: 2000 }));
            }
            engine.explode(&given);
            engine.compact();
            history.push(in_order(&engine.pellets));
        }
        runs.push(history);
    }
    assert_eq!(runs[0], runs[1]);
    assert_eq!(runs[0][23].len(), 1);
    assert_eq!(runs[0][24].len(), 18);
}

#[test]
fn sparks_drift_down_and_leave_the_screen() {
    let mut engine = Engine::new();
    engine.pellets.push(active((40000, 12000), (0, -100)));
    engine.step(24);
    assert_eq!(engine.exploders, vec![0]);
    engine.explode(&vec![ring_velocities(&Burst { count: 10, magnitude: 1000 })]);
    engine.compact();
    assert_eq!(engine.pellets.len(), 15);
    let mut ticks = 0;
    while !engine.pellets.is_empty() {
        assert!(engine.can_step());
        engine.step(24);
        assert!(engine.exploders.is_empty());
        engine.explode(&Vec::new());
        engine.compact();
        for p in &engine.pellets {
            assert_eq!(p.blast_type, BlastType::Inert);
            assert!(p.pos.1 / 1000 <= 24);
        }
        ticks += 1;
        assert!(ticks < 1000);
    }
}
