use forcefield::{
    spawn, tick_birds, Bird, DirectionTable, Grid, NoiseRequest, ANGLE_TURN, FIXED_ONE,
    POSITION_LIMIT, RAW_NOISE_ONE,
};
use simdnoise::NoiseBuilder;

fn unit_circle(n: usize) -> DirectionTable {
    let units = (0..n)
        .map(|k| {
            let turn = k as f64 / n as f64 * std::f64::consts::TAU;
            (
                (turn.cos() * FIXED_ONE as f64).round() as i32,
                (turn.sin() * FIXED_ONE as f64).round() as i32,
            )
        })
        .collect();
    DirectionTable::new(units).unwrap()
}

fn sample_noise(request: &NoiseRequest) -> Vec<i32> {
    let (values, _, _) = NoiseBuilder::gradient_2d_offset(
        request.x_offset as f32 / FIXED_ONE as f32,
        request.width as usize,
        request.y_offset as f32 / FIXED_ONE as f32,
        request.height as usize,
    )
    .with_seed(request.seed)
    .with_freq(request.frequency_milli as f32 / 1000.0)
    .generate();
    values
        .iter()
        .map(|v| (v * RAW_NOISE_ONE as f32).round() as i32)
        .collect()
}

/// A 1366 x 768 field at cell size 32 with one raw value everywhere in each
/// channel: `-RAW_NOISE_ONE` gives direction 0, `0` magnitude 512,
/// `RAW_NOISE_ONE` magnitude 1024.
fn uniform(angle_raw: i32, length_raw: i32) -> Grid {
    let cells = 43 * 25;
    Grid::new(32, 0, 1366, 768, &vec![angle_raw; cells], &vec![length_raw; cells]).unwrap()
}

#[test]
fn new_bird_is_at_rest() {
    let b = Bird::new(683 * FIXED_ONE, 384 * FIXED_ONE);
    assert_eq!((b.x, b.y, b.vel), (683 * FIXED_ONE, 384 * FIXED_ONE, (0, 0)));
}

#[test]
fn wrap_snaps_instead_of_taking_a_remainder() {
    let w = 1366 * FIXED_ONE;
    let h = 768 * FIXED_ONE;
    let mut b = Bird::new(w + 5, 100);
    b.wrap(w, h);
    assert_eq!(b.x, 0);
    assert_ne!(b.x, 5);
    assert_eq!(b.y, 100);
    let mut b = Bird::new(-5, h + 3 * h);
    b.wrap(w, h);
    assert_eq!((b.x, b.y), (w, 0));
    let mut b = Bird::new(w, h);
    b.wrap(w, h);
    assert_eq!((b.x, b.y), (w, h));
}

#[test]
fn direction_table_is_checked() {
    assert!(DirectionTable::new(vec![]).is_none());
    assert!(DirectionTable::new(vec![(1025, 0)]).is_none());
    assert!(DirectionTable::new(vec![(0, -1025)]).is_none());
    assert!(DirectionTable::new(vec![(1024, 0); ANGLE_TURN as usize + 1]).is_none());
    assert!(DirectionTable::new(vec![(0, 0)]).is_none());
    assert!(DirectionTable::new(vec![(1024, 1024)]).is_none());
    assert!(DirectionTable::new(vec![(724, 724)]).is_some());
    let t = DirectionTable::new(vec![(1024, 0), (0, 1024), (-1024, 0), (0, -1024)]).unwrap();
    assert_eq!(t.at(0), (1024, 0));
    assert_eq!(t.at(16383), (1024, 0));
    assert_eq!(t.at(16384), (0, 1024));
    assert_eq!(t.at(ANGLE_TURN - 1), (0, -1024));
}

#[test]
fn one_step_accelerates_drags_and_moves() {
    let grid = uniform(-RAW_NOISE_ONE, 0);
    let dirs = unit_circle(4);
    let mut b = Bird::new(100 * FIXED_ONE, 100 * FIXED_ONE);
    b.tick(&grid, &dirs);
    // (0 + 512) * 19 / 20 = 486
    assert_eq!(b.vel, (486, 0));
    assert_eq!((b.x, b.y), (100 * FIXED_ONE + 486, 100 * FIXED_ONE));
    b.tick(&grid, &dirs);
    // (486 + 512) * 19 / 20 = 948
    assert_eq!(b.vel, (948, 0));
}

#[test]
fn negative_velocity_drags_toward_zero() {
    let mut grid = uniform(-RAW_NOISE_ONE, 0);
    assert_eq!(grid.set_length_range(-1024, -1024, &vec![0; 43 * 25]), Ok(()));
    let dirs = unit_circle(4);
    let mut b = Bird::new(500 * FIXED_ONE, 500 * FIXED_ONE);
    b.tick(&grid, &dirs);
    // (0 - 1024) * 19 / 20 = -972.8, toward zero
    assert_eq!(b.vel, (-972, 0));
}

#[test]
fn drag_holds_speed_near_steady_state() {
    let grid = uniform(-RAW_NOISE_ONE, RAW_NOISE_ONE);
    let dirs = unit_circle(64);
    let mut b = Bird::new(683 * FIXED_ONE, 384 * FIXED_ONE);
    let steady = 19 * 1024;
    for _ in 0..10_000 {
        b.tick(&grid, &dirs);
        assert!(b.vel.0 >= 0 && b.vel.0 <= steady);
        assert_eq!(b.vel.1, 0);
        assert!(b.x >= -steady && b.x <= 1366 * FIXED_ONE + steady);
    }
    assert!(steady - b.vel.0 <= 20);
}

#[test]
fn example_scene_stays_in_the_domain() {
    let (a, l) = Grid::new_requests(32, 0, 1366, 768).unwrap();
    let mut grid = Grid::new(32, 0, 1366, 768, &sample_noise(&a), &sample_noise(&l)).unwrap();
    assert_eq!((grid.width(), grid.height()), (43, 25));
    let dirs = unit_circle(1024);
    let mut birds = Vec::new();
    assert!(spawn(&mut birds, 683 * FIXED_ONE, 384 * FIXED_ONE));
    for _ in 0..10 {
        let (a, l) = grid.tick_requests();
        assert_eq!(grid.tick(&sample_noise(&a), &sample_noise(&l)), Ok(()));
        tick_birds(&mut birds, &grid, &dirs);
    }
    let b = birds[0];
    assert!(b.x >= 0 && b.x < 1366 * FIXED_ONE);
    assert!(b.y >= 0 && b.y < 768 * FIXED_ONE);
    assert!(b.vel.0.abs() <= 19 * 1024 && b.vel.1.abs() <= 19 * 1024);
}

#[test]
fn tick_birds_steps_each_bird() {
    let grid = uniform(-RAW_NOISE_ONE, 0);
    let dirs = unit_circle(4);
    let mut birds = vec![Bird::new(0, 0), Bird::new(50 * FIXED_ONE, -1)];
    let mut expected = birds.clone();
    for b in expected.iter_mut() {
        b.tick(&grid, &dirs);
    }
    tick_birds(&mut birds, &grid, &dirs);
    for (b, e) in birds.iter().zip(expected.iter()) {
        assert_eq!((b.x, b.y, b.vel), (e.x, e.y, e.vel));
    }
    // the second bird wrapped from y = -1 to the bottom edge first
    assert_eq!(birds[1].y, 768 * FIXED_ONE);
}

#[test]
fn spawn_checks_the_limits() {
    let mut birds = Vec::new();
    assert!(spawn(&mut birds, 5, -7));
    assert!(!spawn(&mut birds, POSITION_LIMIT + 1, 0));
    assert!(!spawn(&mut birds, 0, i64::MIN));
    assert_eq!(birds.len(), 1);
    assert_eq!((birds[0].x, birds[0].y, birds[0].vel), (5, -7, (0, 0)));
}

#[test]
fn unit_circles_of_many_sizes_are_accepted() {
    for n in [1usize, 3, 64, 360, 1024, 65536] {
        let _ = unit_circle(n);
    }
}
