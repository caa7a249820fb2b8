use forcefield::{FieldError, Grid, NoiseRequest, ANGLE_TURN, FIXED_ONE, RAW_NOISE_ONE};
use simdnoise::NoiseBuilder;

fn sample_noise(request: &NoiseRequest) -> Vec<i32> {
    let (values, _, _) = NoiseBuilder::gradient_2d_offset(
        request.x_offset as f32 / FIXED_ONE as f32,
        request.width as usize,
        request.y_offset as f32 / FIXED_ONE as f32,
        request.height as usize,
    )
    .with_seed(request.seed)
    .with_freq(request.frequency_milli as f32 / 1000.0)
    .generate();
    values
        .iter()
        .map(|v| (v * RAW_NOISE_ONE as f32).round() as i32)
        .collect()
}

fn build(cell_size: u16, seed: i32, w: u16, h: u16) -> Grid {
    let (a, l) = Grid::new_requests(cell_size, seed, w, h).unwrap();
    Grid::new(cell_size, seed, w, h, &sample_noise(&a), &sample_noise(&l)).unwrap()
}

fn tick(grid: &mut Grid) {
    let (a, l) = grid.tick_requests();
    assert_eq!(grid.tick(&sample_noise(&a), &sample_noise(&l)), Ok(()));
}

fn update(
    grid: &mut Grid,
    cell_size: Option<u16>,
    seed: Option<i32>,
    w: Option<u16>,
    h: Option<u16>,
) -> Result<(), FieldError> {
    let (a, l) = grid.update_requests(cell_size, seed, w, h)?;
    grid.update(cell_size, seed, w, h, &sample_noise(&a), &sample_noise(&l))
}

#[test]
fn grid_dimensions_cover_the_domain() {
    let grid = build(32, 0, 1366, 768);
    // 1366 / 32 + 1 and 768 / 32 + 1
    assert_eq!(grid.width(), 43);
    assert_eq!(grid.height(), 25);
    assert_eq!(grid.angles().len(), 43 * 25);
    assert_eq!(grid.lengths().len(), 43 * 25);
}

#[test]
fn new_rejects_zero_cell_size() {
    assert!(matches!(Grid::new_requests(0, 0, 1366, 768), Err(FieldError::InvalidCellSize)));
    assert!(matches!(Grid::new(0, 0, 1366, 768, &vec![], &vec![]), Err(FieldError::InvalidCellSize)));
}

#[test]
fn new_rejects_empty_domain() {
    assert!(matches!(Grid::new(32, 0, 0, 768, &vec![], &vec![]), Err(FieldError::InvalidDomain)));
    assert!(matches!(Grid::new_requests(32, 0, 1366, 0), Err(FieldError::InvalidDomain)));
}

#[test]
fn new_rejects_noise_of_the_wrong_size() {
    let full = vec![0i32; 43 * 25];
    let short = vec![0i32; 43 * 24];
    assert!(matches!(Grid::new(32, 0, 1366, 768, &full, &short), Err(FieldError::NoiseSizeMismatch)));
    assert!(Grid::new(32, 0, 1366, 768, &full, &full).is_ok());
}

#[test]
fn new_builds_the_field_from_noise() {
    let (a, l) = Grid::new_requests(32, 7, 1366, 768).unwrap();
    assert_eq!((a.seed, a.width, a.height, a.x_offset, a.y_offset, a.frequency_milli), (7, 43, 25, 0, 0, 20));
    assert_eq!(l.seed, 7 - 1000);
    let grid = build(32, 7, 1366, 768);
    assert_eq!(grid.angle_request(), a);
    assert_eq!(grid.length_request(), l);
    assert!(grid.angles().iter().any(|&x| x != grid.angles()[0]));
}

#[test]
fn largest_grid_is_accepted() {
    let (a, _) = Grid::new_requests(1, 0, u16::MAX, u16::MAX).unwrap();
    assert_eq!((a.width, a.height), (65536, 65536));
}

#[test]
fn update_with_nothing_changes_nothing() {
    let mut grid = build(32, 0, 1366, 768);
    let before = grid.angles().clone();
    assert_eq!(grid.update(None, None, None, None, &vec![], &vec![]), Ok(()));
    assert_eq!(grid.angles(), &before);
    assert_eq!(grid.width(), 43);
}

#[test]
fn update_resizes_and_rebuilds_both_arrays() {
    let mut grid = build(32, 0, 1366, 768);
    for cell_size in [4u16, 5, 31, 33, 100, 1366, 2000] {
        assert_eq!(update(&mut grid, Some(cell_size), Some(3), None, None), Ok(()));
        let cells = (grid.width() * grid.height()) as usize;
        assert_eq!(grid.width(), 1366 / cell_size as u32 + 1);
        assert_eq!(grid.angles().len(), cells);
        assert_eq!(grid.lengths().len(), cells);
        assert_eq!(grid.seed(), 3);
        assert_eq!(grid.cell_size(), cell_size);
        assert_eq!(grid.angles(), build(cell_size, 3, 1366, 768).angles());
    }
    assert_eq!(update(&mut grid, None, None, Some(100), Some(50)), Ok(()));
    assert_eq!((grid.width(), grid.height()), (1, 1));
    assert_eq!((grid.screen_width(), grid.screen_height()), (100, 50));
}

#[test]
fn update_matches_a_new_field() {
    let mut grid = build(16, 1, 800, 600);
    assert_eq!(update(&mut grid, Some(32), Some(0), Some(1366), Some(768)), Ok(()));
    let fresh = build(32, 0, 1366, 768);
    assert_eq!((grid.width(), grid.height()), (43, 25));
    assert_eq!(grid.angles(), fresh.angles());
    assert_eq!(grid.lengths(), fresh.lengths());
}

#[test]
fn update_rejected_keeps_previous_state() {
    let mut grid = build(32, 5, 1366, 768);
    let angles = grid.angles().clone();
    assert_eq!(update(&mut grid, Some(0), Some(9), None, None), Err(FieldError::InvalidCellSize));
    assert_eq!(update(&mut grid, None, None, Some(0), None), Err(FieldError::InvalidDomain));
    let full = vec![0i32; 43 * 25];
    assert_eq!(grid.update(Some(16), None, None, None, &full, &full), Err(FieldError::NoiseSizeMismatch));
    assert_eq!(grid.cell_size(), 32);
    assert_eq!(grid.seed(), 5);
    assert_eq!(grid.angles(), &angles);
}

#[test]
fn regenerate_rejects_wrong_noise_size() {
    let mut grid = build(32, 0, 1366, 768);
    let short = vec![0i32; 10];
    let full = vec![0i32; 43 * 25];
    assert_eq!(grid.regenerate(&short, &full), Err(FieldError::NoiseSizeMismatch));
    assert_eq!(grid.regenerate(&full, &short), Err(FieldError::NoiseSizeMismatch));
    assert_eq!(grid.tick(&short, &full), Err(FieldError::NoiseSizeMismatch));
}

#[test]
fn regenerate_rescales_linearly() {
    let zeros = vec![0i32; 4];
    let mut grid = Grid::new(1024, 0, 1024, 1024, &zeros, &zeros).unwrap();
    assert_eq!((grid.width(), grid.height()), (2, 2));
    let angles = vec![-RAW_NOISE_ONE, 0, RAW_NOISE_ONE, 3 * RAW_NOISE_ONE];
    let lengths = vec![-RAW_NOISE_ONE, 0, RAW_NOISE_ONE, -5 * RAW_NOISE_ONE];
    assert_eq!(grid.regenerate(&angles, &lengths), Ok(()));
    assert_eq!(grid.angles(), &vec![0, 32767, 65535, 65535]);
    assert_eq!(grid.lengths(), &vec![0, 512, 1024, 0]);
}

#[test]
fn regeneration_is_deterministic() {
    let mut a = build(16, 42, 800, 600);
    let mut b = build(16, 42, 800, 600);
    a.set_offset_changes((300, -700), (-50, 1024));
    b.set_offset_changes((300, -700), (-50, 1024));
    for _ in 0..3 {
        tick(&mut a);
        tick(&mut b);
    }
    assert_eq!(a.angle_request(), b.angle_request());
    assert_eq!(a.length_request(), b.length_request());
    assert_eq!(a.angles(), b.angles());
    assert_eq!(a.lengths(), b.lengths());
}

#[test]
fn generated_samples_stay_in_range() {
    let mut grid = build(8, 11, 640, 480);
    let l = sample_noise(&grid.length_request());
    assert_eq!(grid.set_length_range(-10 * 1024, 10 * 1024, &l), Ok(()));
    assert!(grid.angles().iter().all(|&a| a < ANGLE_TURN));
    assert!(grid.lengths().iter().all(|&l| (-10240..=10240).contains(&l)));
    assert!(grid.lengths().iter().any(|&l| l < 0));
}

#[test]
fn length_seed_offset_leaves_angles_alone() {
    let mut grid = build(32, 4, 1366, 768);
    let angles = grid.angles().clone();
    let angle_request = grid.angle_request();
    assert_eq!(grid.length_request().seed, 4 - 1000);
    let request = grid.seed_offset_request(77);
    assert_eq!(request.seed, 4 - 77);
    assert_eq!(grid.set_length_seed_offset(77, &sample_noise(&request)), Ok(()));
    assert_eq!(grid.angle_request(), angle_request);
    assert_eq!(grid.length_request(), request);
    assert_eq!(grid.angles(), &angles);
    let l = sample_noise(&grid.length_request());
    assert_eq!(grid.set_length_seed_offset(0, &l), Err(FieldError::InvalidSeedOffset));
}

#[test]
fn length_seed_wraps_at_the_bottom_of_i32() {
    let (a, l) = Grid::new_requests(32, i32::MIN, 100, 100).unwrap();
    assert_eq!(l.seed, i32::MIN.wrapping_sub(1000));
    assert_ne!(l.seed, a.seed);
}

#[test]
fn frequency_can_be_changed() {
    let mut grid = build(32, 4, 1366, 768);
    let (a, l) = grid.frequency_requests(50);
    assert_eq!(a.frequency_milli, 50);
    assert_eq!(grid.set_frequency(50, &sample_noise(&a), &sample_noise(&l)), Ok(()));
    assert_eq!(grid.frequency_milli(), 50);
    assert_eq!(grid.angle_request(), a);
}

#[test]
fn sample_lookup_at_the_boundary() {
    for cell_size in [1u16, 32, u16::MAX] {
        let grid = build(cell_size, 0, 1366, 768);
        let w = 1366 * FIXED_ONE;
        let h = 768 * FIXED_ONE;
        let width = grid.width() as usize;
        let (a0, l0) = grid.get_vec_on_position(0, 0);
        assert_eq!((a0, l0), (grid.angles()[0], grid.lengths()[0]));
        let (a1, l1) = grid.get_vec_on_position(w - 1, h - 1);
        let i = ((h - 1) / (cell_size as i64 * FIXED_ONE)) as usize * width
            + ((w - 1) / (cell_size as i64 * FIXED_ONE)) as usize;
        assert!(i < grid.angles().len());
        assert_eq!((a1, l1), (grid.angles()[i], grid.lengths()[i]));
        assert_eq!(grid.get_vec_on_position(i64::MIN, i64::MIN), grid.get_vec_on_position(0, 0));
        assert_eq!(grid.get_vec_on_position(i64::MAX, i64::MAX), grid.get_vec_on_position(w, h));
    }
}

#[test]
fn points_outside_read_the_nearest_point_of_the_domain() {
    let grid = build(32, 0, 1366, 768);
    let w = 1366 * FIXED_ONE;
    assert_eq!(grid.get_vec_on_position(1380 * FIXED_ONE, 10), grid.get_vec_on_position(w, 10));
    // the right edge is in column 1366 / 32 = 42, the last one
    assert_eq!(grid.get_vec_on_position(w, 0).0, grid.angles()[42]);
    assert_eq!(grid.get_vec_on_position(-3 * FIXED_ONE, 40 * FIXED_ONE), grid.get_vec_on_position(0, 40 * FIXED_ONE));
}

#[test]
fn tick_moves_offsets_and_rebuilds() {
    let mut grid = build(32, 0, 1366, 768);
    tick(&mut grid);
    assert_eq!((grid.angle_request().x_offset, grid.angle_request().y_offset), (0, 0));
    grid.set_offset_changes((512, 0), (0, -512));
    tick(&mut grid);
    tick(&mut grid);
    assert_eq!((grid.angle_request().x_offset, grid.angle_request().y_offset), (1024, 0));
    assert_eq!((grid.length_request().x_offset, grid.length_request().y_offset), (0, -1024));
    let mut again = build(32, 0, 1366, 768);
    let a = sample_noise(&grid.angle_request());
    let l = sample_noise(&grid.length_request());
    assert_eq!(again.regenerate(&a, &l), Ok(()));
    assert_eq!(grid.angles(), again.angles());
}

#[test]
fn tick_offsets_saturate() {
    let mut grid = build(32, 0, 1366, 768);
    grid.set_offset_changes((i64::MAX, i64::MIN), (1, 1));
    tick(&mut grid);
    tick(&mut grid);
    assert_eq!(grid.angle_request().x_offset, i64::MAX);
    assert_eq!(grid.angle_request().y_offset, i64::MIN);
    assert_eq!(grid.length_request().x_offset, 2);
}

#[test]
fn length_range_must_not_be_empty() {
    let mut grid = build(32, 0, 1366, 768);
    let l = sample_noise(&grid.length_request());
    assert_eq!(grid.set_length_range(5, 4, &l), Err(FieldError::InvalidLengthRange));
    assert_eq!(grid.set_length_range(0, 4, &vec![1]), Err(FieldError::NoiseSizeMismatch));
    assert_eq!(grid.set_length_range(2048, 2048, &l), Ok(()));
    assert!(grid.lengths().iter().all(|&l| l == 2048));
}
