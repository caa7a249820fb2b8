//! The flow field: a row-major grid of direction and magnitude samples that
//! covers a rectangular domain, built from gradient noise.
//!
//! Every call that changes what the samples depend on (shape, seed, offsets,
//! ranges, frequency) takes the raw noise for the new state and rebuilds both
//! arrays before it returns, so a reader never sees samples of an earlier
//! state. The `*_requests` functions say which noise a call will need.
use vstd::arithmetic::div_mod::{
    lemma_div_by_multiple, lemma_div_denominator, lemma_fundamental_div_mod, lemma_div_is_ordered, lemma_div_pos_is_pos,
};
use vstd::arithmetic::div_mod::lemma_mod_pos_bound;
use vstd::prelude::*;

use crate::fixed::{lemma_scale_bounds, saturate_i64, saturating_add_i64, ANGLE_TURN, FIXED_ONE, RAW_NOISE_ONE};

verus! {

/// Default distance between the seeds of the direction and magnitude channels.
pub const DEFAULT_LENGTH_SEED_OFFSET: i32 = 1000;

/// Default noise frequency, in thousandths of a cycle per sample.
pub const DEFAULT_FREQUENCY_MILLI: u32 = 20;

/// Default magnitude range: `[0, 1]` in fixed point.
pub const DEFAULT_LENGTH_MIN: i32 = 0;

pub const DEFAULT_LENGTH_MAX: i32 = 1024;

/// Why a configuration or a batch of noise was rejected.
#[derive(Clone, Copy, Debug, PartialEq, Eq, Structural)]
pub enum FieldError {
    /// The cell size is zero.
    InvalidCellSize,
    /// A side of the domain is zero.
    InvalidDomain,
    /// The noise handed over does not hold one sample per cell.
    NoiseSizeMismatch,
    /// The magnitude range is empty (`min > max`).
    InvalidLengthRange,
    /// The seed offset is zero, so both channels would share one seed.
    InvalidSeedOffset,
}

/// What the host samples from 2D gradient noise for one channel:
/// `width * height` values, row after row, with `x` varying fastest, each
/// quantized so that the nominal range `[-1, 1]` maps to
/// `[-RAW_NOISE_ONE, RAW_NOISE_ONE]`.
#[derive(Clone, Copy, Debug, PartialEq, Eq, Structural)]
pub struct NoiseRequest {
    pub seed: i32,
    pub width: u32,
    pub height: u32,
    /// Horizontal start of the sampled window, in `1 / FIXED_ONE` samples.
    pub x_offset: i64,
    /// Vertical start of the sampled window, in `1 / FIXED_ONE` samples.
    pub y_offset: i64,
    pub frequency_milli: u32,
}

/// The flow field. `angles[i]` and `lengths[i]` describe cell
/// `i = cell_y * width + cell_x`.
pub struct Grid {
    cell_size: u16,
    screen_width: u16,
    screen_height: u16,
    width: u32,
    height: u32,
    angles_offset: (i64, i64),
    lengths_offset: (i64, i64),
    angles_offset_change: (i64, i64),
    lengths_offset_change: (i64, i64),
    angles: Vec<u32>,
    lengths: Vec<i32>,
    seed: i32,
    length_seed_offset: i32,
    length_min: i32,
    length_max: i32,
    frequency_milli: u32,
}

/// The abstract state of a `Grid`.
pub struct GridView {
    pub cell_size: u16,
    pub screen_width: u16,
    pub screen_height: u16,
    pub width: u32,
    pub height: u32,
    pub angles_offset: (i64, i64),
    pub lengths_offset: (i64, i64),
    pub angles_offset_change: (i64, i64),
    pub lengths_offset_change: (i64, i64),
    pub angles: Seq<u32>,
    pub lengths: Seq<i32>,
    pub seed: i32,
    pub length_seed_offset: i32,
    pub length_min: i32,
    pub length_max: i32,
    pub frequency_milli: u32,
}

/// Cells along one side: `domain / cell + 1`, so that every coordinate in
/// `[0, domain]` falls in a cell.
pub open spec fn extent(domain: int, cell: int) -> int {
    domain / cell + 1
}

/// The first rule that a configuration breaks, if any.
pub open spec fn config_error(cell_size: u16, screen_width: u16, screen_height: u16) -> Option<
    FieldError,
> {
    if cell_size == 0 {
        Some(FieldError::InvalidCellSize)
    } else if screen_width == 0 || screen_height == 0 {
        Some(FieldError::InvalidDomain)
    } else {
        None
    }
}

/// Raw noise held to its nominal range.
pub open spec fn clamp_raw(r: int) -> int {
    if r < -RAW_NOISE_ONE {
        -RAW_NOISE_ONE
    } else if r > RAW_NOISE_ONE {
        RAW_NOISE_ONE as int
    } else {
        r
    }
}

/// Raw noise rescaled linearly onto directions `[0, ANGLE_TURN)`.
pub open spec fn angle_of_raw(r: int) -> int {
    (clamp_raw(r) + RAW_NOISE_ONE) * ANGLE_TURN / (2 * RAW_NOISE_ONE + 1)
}

/// Raw noise rescaled linearly onto magnitudes `[lo, hi]`.
pub open spec fn length_of_raw(r: int, lo: int, hi: int) -> int {
    lo + (clamp_raw(r) + RAW_NOISE_ONE) * (hi - lo) / (2 * RAW_NOISE_ONE)
}

/// Directions of every cell, from the raw noise of the direction channel.
pub open spec fn angles_from(noise: Seq<i32>) -> Seq<u32> {
    noise.map_values(|r: i32| angle_of_raw(r as int) as u32)
}

/// Magnitudes of every cell, from the raw noise of the magnitude channel.
pub open spec fn lengths_from(noise: Seq<i32>, lo: i32, hi: i32) -> Seq<i32> {
    noise.map_values(|r: i32| length_of_raw(r as int, lo as int, hi as int) as i32)
}

/// A coordinate (in `1 / FIXED_ONE` pixels) clamped to `[0, domain]` pixels.
pub open spec fn clamp_to_domain(v: int, domain: int) -> int {
    if v < 0 {
        0
    } else if v > domain * FIXED_ONE {
        domain * FIXED_ONE
    } else {
        v
    }
}

/// The cell along one axis that holds coordinate `v` once it is clamped to
/// the domain.
pub open spec fn cell_of(v: int, cell_size: int, domain: int) -> int {
    clamp_to_domain(v, domain) / (cell_size * FIXED_ONE)
}

/// The request for one channel's noise.
pub open spec fn make_request(
    seed: i32,
    width: u32,
    height: u32,
    offset: (i64, i64),
    frequency_milli: u32,
) -> NoiseRequest {
    NoiseRequest {
        seed,
        width,
        height,
        x_offset: offset.0,
        y_offset: offset.1,
        frequency_milli,
    }
}

impl GridView {
    pub open spec fn cells(self) -> int {
        self.width * self.height
    }

    /// Noise for both channels holds one value per cell of this shape.
    pub open spec fn fits(self, angle_noise: Seq<i32>, length_noise: Seq<i32>) -> bool {
        angle_noise.len() == self.cells() && length_noise.len() == self.cells()
    }

    /// Dimensions cover the domain, both arrays hold one sample per cell,
    /// and every sample lies in its channel's range.
    pub open spec fn is_valid(self) -> bool {
        &&& config_error(self.cell_size, self.screen_width, self.screen_height).is_none()
        &&& self.width == extent(self.screen_width as int, self.cell_size as int)
        &&& self.height == extent(self.screen_height as int, self.cell_size as int)
        &&& self.angles.len() == self.cells()
        &&& self.lengths.len() == self.cells()
        &&& self.length_min <= self.length_max
        &&& self.length_seed_offset != 0
        &&& forall|i: int| 0 <= i < self.angles.len() ==> self.angles[i] < ANGLE_TURN
        &&& forall|i: int|
            0 <= i < self.lengths.len() ==> self.length_min <= #[trigger] self.lengths[i]
                <= self.length_max
    }

    /// The seed of the magnitude channel.
    pub open spec fn length_seed(self) -> i32 {
        self.seed.wrapping_sub(self.length_seed_offset)
    }

    pub open spec fn angle_request(self) -> NoiseRequest {
        make_request(
            self.seed,
            self.width,
            self.height,
            self.angles_offset,
            self.frequency_milli,
        )
    }

    pub open spec fn length_request(self) -> NoiseRequest {
        make_request(
            self.length_seed(),
            self.width,
            self.height,
            self.lengths_offset,
            self.frequency_milli,
        )
    }

    /// Index of the cell that holds the point `(x, y)`.
    pub open spec fn index_at(self, x: int, y: int) -> int {
        cell_of(y, self.cell_size as int, self.screen_height as int) * self.width + cell_of(
            x,
            self.cell_size as int,
            self.screen_width as int,
        )
    }

    /// The direction and magnitude of the cell that holds `(x, y)`.
    pub open spec fn sample(self, x: int, y: int) -> (u32, i32) {
        (self.angles[self.index_at(x, y)], self.lengths[self.index_at(x, y)])
    }

    /// The field with both channels rebuilt from raw noise.
    pub open spec fn regenerated(self, angle_noise: Seq<i32>, length_noise: Seq<i32>) -> GridView {
        GridView {
            angles: angles_from(angle_noise),
            lengths: lengths_from(length_noise, self.length_min, self.length_max),
            ..self
        }
    }

    /// The parameters after one tick: each offset moved by its velocity.
    pub open spec fn advanced(self) -> GridView {
        GridView {
            angles_offset: (
                saturate_i64(self.angles_offset.0 as int, self.angles_offset_change.0 as int) as i64,
                saturate_i64(self.angles_offset.1 as int, self.angles_offset_change.1 as int) as i64,
            ),
            lengths_offset: (
                saturate_i64(self.lengths_offset.0 as int, self.lengths_offset_change.0 as int) as i64,
                saturate_i64(self.lengths_offset.1 as int, self.lengths_offset_change.1 as int) as i64,
            ),
            ..self
        }
    }

    /// The parameters with cell size, seed and domain replaced where given,
    /// and the grid resized to match.
    pub open spec fn reconfigured(
        self,
        cell_size: Option<u16>,
        seed: Option<i32>,
        screen_width: Option<u16>,
        screen_height: Option<u16>,
    ) -> GridView {
        let cs = or_keep(cell_size, self.cell_size);
        let w = or_keep(screen_width, self.screen_width);
        let h = or_keep(screen_height, self.screen_height);
        GridView {
            cell_size: cs,
            seed: or_keep(seed, self.seed),
            screen_width: w,
            screen_height: h,
            width: extent(w as int, cs as int) as u32,
            height: extent(h as int, cs as int) as u32,
            ..self
        }
    }
}

/// The new value if there is one, else the current one.
pub open spec fn or_keep<T>(o: Option<T>, current: T) -> T {
    match o {
        Some(v) => v,
        None => current,
    }
}

pub open spec fn all_none(
    cell_size: Option<u16>,
    seed: Option<i32>,
    screen_width: Option<u16>,
    screen_height: Option<u16>,
) -> bool {
    cell_size is None && seed is None && screen_width is None && screen_height is None
}

/// The parameters of a new field: offsets and their velocities zero, the
/// default seed offset, magnitude range and frequency; no samples yet.
pub open spec fn fresh_view(cell_size: u16, seed: i32, screen_width: u16, screen_height: u16) -> GridView {
    GridView {
        cell_size,
        screen_width,
        screen_height,
        width: extent(screen_width as int, cell_size as int) as u32,
        height: extent(screen_height as int, cell_size as int) as u32,
        angles_offset: (0, 0),
        lengths_offset: (0, 0),
        angles_offset_change: (0, 0),
        lengths_offset_change: (0, 0),
        angles: Seq::empty(),
        lengths: Seq::empty(),
        seed,
        length_seed_offset: DEFAULT_LENGTH_SEED_OFFSET,
        length_min: DEFAULT_LENGTH_MIN,
        length_max: DEFAULT_LENGTH_MAX,
        frequency_milli: DEFAULT_FREQUENCY_MILLI,
    }
}

impl View for Grid {
    type V = GridView;

    closed spec fn view(&self) -> GridView {
        GridView {
            cell_size: self.cell_size,
            screen_width: self.screen_width,
            screen_height: self.screen_height,
            width: self.width,
            height: self.height,
            angles_offset: self.angles_offset,
            lengths_offset: self.lengths_offset,
            angles_offset_change: self.angles_offset_change,
            lengths_offset_change: self.lengths_offset_change,
            angles: self.angles@,
            lengths: self.lengths@,
            seed: self.seed,
            length_seed_offset: self.length_seed_offset,
            length_min: self.length_min,
            length_max: self.length_max,
            frequency_milli: self.frequency_milli,
        }
    }
}

/// A clamped coordinate lies in a cell of the grid: its cell is at most
/// `domain / cell_size`, the last one.
proof fn lemma_cell_in_extent(v: int, cell_size: int, domain: int)
    requires
        cell_size >= 1,
        domain >= 0,
    ensures
        0 <= cell_of(v, cell_size, domain) <= domain / cell_size,
{
    let p = clamp_to_domain(v, domain);
    lemma_div_denominator(p, FIXED_ONE as int, cell_size);
    lemma_div_is_ordered(p, domain * FIXED_ONE, FIXED_ONE as int);
    lemma_div_by_multiple(domain, FIXED_ONE as int);
    lemma_div_pos_is_pos(p, FIXED_ONE as int);
    lemma_div_is_ordered(p / (FIXED_ONE as int), domain, cell_size);
    lemma_div_pos_is_pos(p / (FIXED_ONE as int), cell_size);
    assert(FIXED_ONE * cell_size == cell_size * FIXED_ONE);
}

/// Cells along one side of a domain.
fn extent_of(domain: u16, cell_size: u16) -> (r: u32)
    requires
        cell_size >= 1,
    ensures
        r == extent(domain as int, cell_size as int),
        r <= 65536,
{
    let d: u32 = domain as u32;
    let c: u32 = cell_size as u32;
    assert(d / c <= d) by (nonlinear_arith)
        requires
            c >= 1,
    ;
    d / c + 1
}

/// Checks a configuration; on success gives the grid's width and height.
fn check_config(cell_size: u16, screen_width: u16, screen_height: u16) -> (r: Result<
    (u32, u32),
    FieldError,
>)
    ensures
        match config_error(cell_size, screen_width, screen_height) {
            Some(e) => r == Err::<(u32, u32), FieldError>(e),
            None => r == Ok::<(u32, u32), FieldError>(
                (
                    extent(screen_width as int, cell_size as int) as u32,
                    extent(screen_height as int, cell_size as int) as u32,
                ),
            ),
        },
        r is Ok ==> r->Ok_0.0 <= 65536 && r->Ok_0.1 <= 65536,
{
    if cell_size == 0 {
        return Err(FieldError::InvalidCellSize);
    }
    if screen_width == 0 || screen_height == 0 {
        return Err(FieldError::InvalidDomain);
    }
    Ok((extent_of(screen_width, cell_size), extent_of(screen_height, cell_size)))
}

/// Whether noise holds one value per cell of a `width` by `height` grid.
fn noise_fits(noise: &Vec<i32>, width: u32, height: u32) -> (r: bool)
    requires
        width <= 65536,
        height <= 65536,
    ensures
        r == (noise@.len() == width * height),
{
    assert(width * height <= 65536 * 65536) by (nonlinear_arith)
        requires
            width <= 65536,
            height <= 65536,
    ;
    noise.len() as u64 == width as u64 * height as u64
}

fn request(seed: i32, width: u32, height: u32, offset: (i64, i64), frequency_milli: u32) -> (r:
    NoiseRequest)
    ensures
        r == make_request(seed, width, height, offset, frequency_milli),
{
    NoiseRequest { seed, width, height, x_offset: offset.0, y_offset: offset.1, frequency_milli }
}

/// Raw noise held to its nominal range, shifted to start at zero.
fn shifted_raw(r: i32) -> (n: u64)
    ensures
        n == clamp_raw(r as int) + RAW_NOISE_ONE,
        n <= 2 * RAW_NOISE_ONE,
{
    if r < -RAW_NOISE_ONE {
        0
    } else if r > RAW_NOISE_ONE {
        2 * (RAW_NOISE_ONE as u64)
    } else {
        (r as i64 + RAW_NOISE_ONE as i64) as u64
    }
}

/// Rescales one raw sample onto the direction range.
fn angle_from_raw(r: i32) -> (a: u32)
    ensures
        a == angle_of_raw(r as int),
        a < ANGLE_TURN,
{
    let n = shifted_raw(r);
    proof {
        lemma_scale_bounds(n as int, ANGLE_TURN as int, 2 * RAW_NOISE_ONE + 1);
    }
    ((n * (ANGLE_TURN as u64)) / (2 * (RAW_NOISE_ONE as u64) + 1)) as u32
}

/// Rescales one raw sample onto the magnitude range `[lo, hi]`.
fn length_from_raw(r: i32, lo: i32, hi: i32) -> (l: i32)
    requires
        lo <= hi,
    ensures
        l == length_of_raw(r as int, lo as int, hi as int),
        lo <= l <= hi,
{
    let n = shifted_raw(r);
    let span: u64 = (hi as i64 - lo as i64) as u64;
    proof {
        lemma_scale_bounds(n as int, span as int, 2 * RAW_NOISE_ONE);
        assert(n * span <= 2 * RAW_NOISE_ONE * 0x1_0000_0000) by (nonlinear_arith)
            requires
                n <= 2 * RAW_NOISE_ONE,
                span < 0x1_0000_0000,
        ;
    }
    let part: u64 = (n * span) / (2 * (RAW_NOISE_ONE as u64));
    (lo as i64 + part as i64) as i32
}

/// Directions for every cell, from raw noise.
fn rebuild_angles(noise: &Vec<i32>) -> (r: Vec<u32>)
    ensures
        r@ == angles_from(noise@),
        forall|i: int| 0 <= i < r@.len() ==> r@[i] < ANGLE_TURN,
{
    let n = noise.len();
    let mut angles: Vec<u32> = Vec::new();
    let mut i: usize = 0;
    while i < n
        invariant
            i <= n,
            n == noise@.len(),
            angles@.len() == i,
            forall|j: int|
                0 <= j < i ==> #[trigger] angles@[j] == angle_of_raw(noise@[j] as int) as u32
                    && angles@[j] < ANGLE_TURN,
        decreases n - i,
    {
        angles.push(angle_from_raw(noise[i]));
        i = i + 1;
    }
    assert(angles@ =~= angles_from(noise@));
    angles
}

/// Magnitudes in `[lo, hi]` for every cell, from raw noise.
fn rebuild_lengths(noise: &Vec<i32>, lo: i32, hi: i32) -> (r: Vec<i32>)
    requires
        lo <= hi,
    ensures
        r@ == lengths_from(noise@, lo, hi),
        forall|i: int| 0 <= i < r@.len() ==> lo <= #[trigger] r@[i] <= hi,
{
    let n = noise.len();
    let mut lengths: Vec<i32> = Vec::new();
    let mut i: usize = 0;
    while i < n
        invariant
            i <= n,
            n == noise@.len(),
            lo <= hi,
            lengths@.len() == i,
            forall|j: int|
                0 <= j < i ==> #[trigger] lengths@[j] == length_of_raw(
                    noise@[j] as int,
                    lo as int,
                    hi as int,
                ) as i32 && lo <= lengths@[j] <= hi,
        decreases n - i,
    {
        lengths.push(length_from_raw(noise[i], lo, hi));
        i = i + 1;
    }
    assert(lengths@ =~= lengths_from(noise@, lo, hi));
    lengths
}

/// The cell along one axis that holds a coordinate, clamped to the domain.
fn cell_index(v: i64, cell_size: u16, domain: u16) -> (c: u32)
    requires
        cell_size >= 1,
    ensures
        c == cell_of(v as int, cell_size as int, domain as int),
        c < extent(domain as int, cell_size as int),
{
    let limit: i64 = domain as i64 * FIXED_ONE;
    let p: i64 = if v < 0 {
        0
    } else if v > limit {
        limit
    } else {
        v
    };
    proof {
        lemma_cell_in_extent(v as int, cell_size as int, domain as int);
    }
    ((p as u64) / (cell_size as u64 * FIXED_ONE as u64)) as u32
}

/// A cell index built from in-range coordinates lies inside the grid.
proof fn lemma_index_in_grid(cx: int, cy: int, w: int, h: int)
    requires
        0 <= cx < w,
        0 <= cy < h,
    ensures
        0 <= cy * w + cx < w * h,
{
    assert(0 <= cy * w + cx < w * h) by (nonlinear_arith)
        requires
            0 <= cx < w,
            0 <= cy < h,
    ;
}

/// Every valid field holds one direction and one magnitude per cell of its
/// `width * height` grid, every direction in `[0, ANGLE_TURN)` and every
/// magnitude in `[length_min, length_max]`; and the grid covers the domain:
/// `width * cell_size` and `height * cell_size` exceed its sides.
pub proof fn lemma_field_invariants(g: GridView)
    requires
        g.is_valid(),
    ensures
        g.angles.len() == g.lengths.len() == g.width * g.height,
        g.width * g.cell_size > g.screen_width,
        g.height * g.cell_size > g.screen_height,
        forall|i: int| 0 <= i < g.angles.len() ==> 0 <= #[trigger] g.angles[i] < ANGLE_TURN,
        forall|i: int|
            0 <= i < g.lengths.len() ==> g.length_min <= #[trigger] g.lengths[i] <= g.length_max,
{
    lemma_extent_covers(g.screen_width as int, g.cell_size as int);
    lemma_extent_covers(g.screen_height as int, g.cell_size as int);
}

/// `domain / cell + 1` cells of `cell` pixels reach past `domain`.
proof fn lemma_extent_covers(domain: int, cell: int)
    requires
        domain >= 0,
        cell >= 1,
    ensures
        extent(domain, cell) * cell > domain,
{
    let q = domain / cell;
    let r = domain % cell;
    lemma_fundamental_div_mod(domain, cell);
    lemma_mod_pos_bound(domain, cell);
    assert((q + 1) * cell > domain) by (nonlinear_arith)
        requires
            domain == cell * q + r,
            0 <= r < cell,
    ;
}

/// Regeneration is deterministic: two fields that agree on configuration,
/// seeds and offsets ask for the same noise, and given the same noise they
/// hold identical directions and magnitudes.
pub proof fn lemma_regeneration_deterministic(
    g1: GridView,
    g2: GridView,
    angle_noise: Seq<i32>,
    length_noise: Seq<i32>,
)
    requires
        g1.cell_size == g2.cell_size,
        g1.screen_width == g2.screen_width,
        g1.screen_height == g2.screen_height,
        g1.width == g2.width,
        g1.height == g2.height,
        g1.seed == g2.seed,
        g1.length_seed_offset == g2.length_seed_offset,
        g1.angles_offset == g2.angles_offset,
        g1.lengths_offset == g2.lengths_offset,
        g1.length_min == g2.length_min,
        g1.length_max == g2.length_max,
        g1.frequency_milli == g2.frequency_milli,
    ensures
        g1.angle_request() == g2.angle_request(),
        g1.length_request() == g2.length_request(),
        g1.regenerated(angle_noise, length_noise).angles == g2.regenerated(
            angle_noise,
            length_noise,
        ).angles,
        g1.regenerated(angle_noise, length_noise).lengths == g2.regenerated(
            angle_noise,
            length_noise,
        ).lengths,
{
}

/// The two channels are decorrelated: they never share a seed, and changing
/// only the magnitude channel's seed offset changes neither the noise the
/// directions are built from nor, for any noise, a single direction.
pub proof fn lemma_channels_decorrelated(
    g: GridView,
    offset: i32,
    angle_noise: Seq<i32>,
    length_noise: Seq<i32>,
)
    requires
        g.is_valid(),
        offset != 0,
    ensures
        g.length_seed() != g.seed,
        (GridView { length_seed_offset: offset, ..g }).angle_request() == g.angle_request(),
        (GridView { length_seed_offset: offset, ..g }).regenerated(angle_noise, length_noise).angles
            == g.regenerated(angle_noise, length_noise).angles,
{
}

/// Every point of the plane, inside the domain or not, reads a cell inside
/// the grid, whatever the cell size; a point outside reads the cell of the
/// nearest point of the domain.
pub proof fn lemma_sample_in_grid(g: GridView, x: int, y: int)
    requires
        g.is_valid(),
    ensures
        0 <= g.index_at(x, y) < g.cells(),
        g.index_at(x, y) == g.index_at(
            clamp_to_domain(x, g.screen_width as int),
            clamp_to_domain(y, g.screen_height as int),
        ),
        g.sample(x, y).0 < ANGLE_TURN,
        g.length_min <= g.sample(x, y).1 <= g.length_max,
{
    let cx = cell_of(x, g.cell_size as int, g.screen_width as int);
    let cy = cell_of(y, g.cell_size as int, g.screen_height as int);
    lemma_cell_in_extent(x, g.cell_size as int, g.screen_width as int);
    lemma_cell_in_extent(y, g.cell_size as int, g.screen_height as int);
    lemma_index_in_grid(cx, cy, g.width as int, g.height as int);
}

impl Grid {
    /// The field's well-formedness: see `GridView::is_valid`.
    pub open spec fn wf(&self) -> bool {
        self@.is_valid()
    }

    /// The noise that `new` needs for this configuration, direction channel
    /// first; the configuration is checked as `new` checks it.
    pub fn new_requests(cell_size: u16, seed: i32, screen_width: u16, screen_height: u16) -> (r:
        Result<(NoiseRequest, NoiseRequest), FieldError>)
        ensures
            match config_error(cell_size, screen_width, screen_height) {
                Some(e) => r == Err::<(NoiseRequest, NoiseRequest), FieldError>(e),
                None => r == Ok::<(NoiseRequest, NoiseRequest), FieldError>(
                    (
                        fresh_view(cell_size, seed, screen_width, screen_height).angle_request(),
                        fresh_view(cell_size, seed, screen_width, screen_height).length_request(),
                    ),
                ),
            },
    {
        let (width, height) = match check_config(cell_size, screen_width, screen_height) {
            Ok(dims) => dims,
            Err(e) => {
                return Err(e);
            },
        };
        Ok(
            (
                request(seed, width, height, (0, 0), DEFAULT_FREQUENCY_MILLI),
                request(
                    seed.wrapping_sub(DEFAULT_LENGTH_SEED_OFFSET),
                    width,
                    height,
                    (0, 0),
                    DEFAULT_FREQUENCY_MILLI,
                ),
            ),
        )
    }

    /// Builds the field over a `screen_width` by `screen_height` domain with
    /// square cells of `cell_size` pixels, from noise sampled for
    /// `new_requests`. Rejects a zero cell size, an empty domain, and noise
    /// that does not hold one value per cell.
    pub fn new(
        cell_size: u16,
        seed: i32,
        screen_width: u16,
        screen_height: u16,
        angle_noise: &Vec<i32>,
        length_noise: &Vec<i32>,
    ) -> (r: Result<Grid, FieldError>)
        ensures
            match config_error(cell_size, screen_width, screen_height) {
                Some(e) => r == Err::<Grid, FieldError>(e),
                None => {
                    let v = fresh_view(cell_size, seed, screen_width, screen_height);
                    if v.fits(angle_noise@, length_noise@) {
                        r is Ok && r->Ok_0.wf() && r->Ok_0@ == v.regenerated(
                            angle_noise@,
                            length_noise@,
                        )
                    } else {
                        r == Err::<Grid, FieldError>(FieldError::NoiseSizeMismatch)
                    }
                },
            },
    {
        let (width, height) = match check_config(cell_size, screen_width, screen_height) {
            Ok(dims) => dims,
            Err(e) => {
                return Err(e);
            },
        };
        if !noise_fits(angle_noise, width, height) || !noise_fits(length_noise, width, height) {
            return Err(FieldError::NoiseSizeMismatch);
        }
        let grid = Grid {
            cell_size,
            screen_width,
            screen_height,
            width,
            height,
            angles_offset: (0, 0),
            lengths_offset: (0, 0),
            angles_offset_change: (0, 0),
            lengths_offset_change: (0, 0),
            angles: rebuild_angles(angle_noise),
            lengths: rebuild_lengths(length_noise, DEFAULT_LENGTH_MIN, DEFAULT_LENGTH_MAX),
            seed,
            length_seed_offset: DEFAULT_LENGTH_SEED_OFFSET,
            length_min: DEFAULT_LENGTH_MIN,
            length_max: DEFAULT_LENGTH_MAX,
            frequency_milli: DEFAULT_FREQUENCY_MILLI,
        };
        assert(grid@ =~= fresh_view(cell_size, seed, screen_width, screen_height).regenerated(
            angle_noise@,
            length_noise@,
        ));
        Ok(grid)
    }

    /// The noise that `update` needs for these changes; the new
    /// configuration is checked as `update` checks it.
    pub fn update_requests(
        &self,
        cell_size: Option<u16>,
        seed: Option<i32>,
        screen_width: Option<u16>,
        screen_height: Option<u16>,
    ) -> (r: Result<(NoiseRequest, NoiseRequest), FieldError>)
        requires
            self.wf(),
        ensures
            match config_error(
                or_keep(cell_size, self@.cell_size),
                or_keep(screen_width, self@.screen_width),
                or_keep(screen_height, self@.screen_height),
            ) {
                Some(e) => r == Err::<(NoiseRequest, NoiseRequest), FieldError>(e),
                None => r == Ok::<(NoiseRequest, NoiseRequest), FieldError>(
                    (
                        self@.reconfigured(
                            cell_size,
                            seed,
                            screen_width,
                            screen_height,
                        ).angle_request(),
                        self@.reconfigured(
                            cell_size,
                            seed,
                            screen_width,
                            screen_height,
                        ).length_request(),
                    ),
                ),
            },
    {
        let cs = match cell_size {
            Some(v) => v,
            None => self.cell_size,
        };
        let sd = match seed {
            Some(v) => v,
            None => self.seed,
        };
        let w = match screen_width {
            Some(v) => v,
            None => self.screen_width,
        };
        let h = match screen_height {
            Some(v) => v,
            None => self.screen_height,
        };
        let (width, height) = match check_config(cs, w, h) {
            Ok(dims) => dims,
            Err(e) => {
                return Err(e);
            },
        };
        Ok(
            (
                request(sd, width, height, self.angles_offset, self.frequency_milli),
                request(
                    sd.wrapping_sub(self.length_seed_offset),
                    width,
                    height,
                    self.lengths_offset,
                    self.frequency_milli,
                ),
            ),
        )
    }

    /// Replaces any subset of cell size, seed and domain, resizes the grid
    /// and rebuilds both channels, at the current offsets, from noise sampled
    /// for `update_requests`. A call that changes nothing does nothing (and
    /// reads no noise). A rejected configuration or noise of the wrong size
    /// leaves the field as it was.
    pub fn update(
        &mut self,
        cell_size: Option<u16>,
        seed: Option<i32>,
        screen_width: Option<u16>,
        screen_height: Option<u16>,
        angle_noise: &Vec<i32>,
        length_noise: &Vec<i32>,
    ) -> (r: Result<(), FieldError>)
        requires
            old(self).wf(),
        ensures
            final(self).wf(),
            all_none(cell_size, seed, screen_width, screen_height) ==> r is Ok && final(self)@
                == old(self)@,
            !all_none(cell_size, seed, screen_width, screen_height) ==> match config_error(
                or_keep(cell_size, old(self)@.cell_size),
                or_keep(screen_width, old(self)@.screen_width),
                or_keep(screen_height, old(self)@.screen_height),
            ) {
                Some(e) => r == Err::<(), FieldError>(e) && final(self)@ == old(self)@,
                None => {
                    let v = old(self)@.reconfigured(cell_size, seed, screen_width, screen_height);
                    if v.fits(angle_noise@, length_noise@) {
                        r is Ok && final(self)@ == v.regenerated(angle_noise@, length_noise@)
                    } else {
                        r == Err::<(), FieldError>(FieldError::NoiseSizeMismatch) && final(self)@
                            == old(self)@
                    }
                },
            },
    {
        if cell_size.is_none() && seed.is_none() && screen_width.is_none()
            && screen_height.is_none() {
            return Ok(());
        }
        let cs = match cell_size {
            Some(v) => v,
            None => self.cell_size,
        };
        let w = match screen_width {
            Some(v) => v,
            None => self.screen_width,
        };
        let h = match screen_height {
            Some(v) => v,
            None => self.screen_height,
        };
        let (width, height) = match check_config(cs, w, h) {
            Ok(dims) => dims,
            Err(e) => {
                return Err(e);
            },
        };
        if !noise_fits(angle_noise, width, height) || !noise_fits(length_noise, width, height) {
            return Err(FieldError::NoiseSizeMismatch);
        }
        let ghost before = self@;
        self.cell_size = cs;
        if let Some(v) = seed {
            self.seed = v;
        }
        self.screen_width = w;
        self.screen_height = h;
        self.width = width;
        self.height = height;
        self.angles = rebuild_angles(angle_noise);
        self.lengths = rebuild_lengths(length_noise, self.length_min, self.length_max);
        assert(self@ =~= before.reconfigured(cell_size, seed, screen_width, screen_height).regenerated(
            angle_noise@,
            length_noise@,
        ));
        Ok(())
    }

    /// Sets the per-tick velocities of the two channels' offsets; the samples
    /// do not depend on them until the next `tick`.
    pub fn set_offset_changes(&mut self, angles: (i64, i64), lengths: (i64, i64))
        requires
            old(self).wf(),
        ensures
            final(self).wf(),
            final(self)@ == (GridView {
                angles_offset_change: angles,
                lengths_offset_change: lengths,
                ..old(self)@
            }),
    {
        self.angles_offset_change = angles;
        self.lengths_offset_change = lengths;
        assert(self@ =~= (GridView {
            angles_offset_change: angles,
            lengths_offset_change: lengths,
            ..old(self)@
        }));
    }

    /// The noise that `tick` needs: the windows at the advanced offsets.
    pub fn tick_requests(&self) -> (r: (NoiseRequest, NoiseRequest))
        ensures
            r == (self@.advanced().angle_request(), self@.advanced().length_request()),
    {
        let a = (
            saturating_add_i64(self.angles_offset.0, self.angles_offset_change.0),
            saturating_add_i64(self.angles_offset.1, self.angles_offset_change.1),
        );
        let l = (
            saturating_add_i64(self.lengths_offset.0, self.lengths_offset_change.0),
            saturating_add_i64(self.lengths_offset.1, self.lengths_offset_change.1),
        );
        (
            request(self.seed, self.width, self.height, a, self.frequency_milli),
            request(
                self.seed.wrapping_sub(self.length_seed_offset),
                self.width,
                self.height,
                l,
                self.frequency_milli,
            ),
        )
    }

    /// Moves each channel's offset by its velocity (held at the bounds of
    /// `i64`) and rebuilds both channels from noise sampled for
    /// `tick_requests`. Noise of the wrong size leaves the field as it was.
    pub fn tick(&mut self, angle_noise: &Vec<i32>, length_noise: &Vec<i32>) -> (r: Result<
        (),
        FieldError,
    >)
        requires
            old(self).wf(),
        ensures
            final(self).wf(),
            old(self)@.fits(angle_noise@, length_noise@) ==> r is Ok && final(self)@ == old(
                self,
            )@.advanced().regenerated(angle_noise@, length_noise@),
            !old(self)@.fits(angle_noise@, length_noise@) ==> r == Err::<(), FieldError>(
                FieldError::NoiseSizeMismatch,
            ) && final(self)@ == old(self)@,
    {
        if !noise_fits(angle_noise, self.width, self.height) || !noise_fits(
            length_noise,
            self.width,
            self.height,
        ) {
            return Err(FieldError::NoiseSizeMismatch);
        }
        self.angles_offset = (
            saturating_add_i64(self.angles_offset.0, self.angles_offset_change.0),
            saturating_add_i64(self.angles_offset.1, self.angles_offset_change.1),
        );
        self.lengths_offset = (
            saturating_add_i64(self.lengths_offset.0, self.lengths_offset_change.0),
            saturating_add_i64(self.lengths_offset.1, self.lengths_offset_change.1),
        );
        self.angles = rebuild_angles(angle_noise);
        self.lengths = rebuild_lengths(length_noise, self.length_min, self.length_max);
        assert(self@ =~= old(self)@.advanced().regenerated(angle_noise@, length_noise@));
        Ok(())
    }

    /// Rebuilds both channels, at the current parameters, from noise sampled
    /// for `angle_request()` and `length_request()`. Noise of the wrong size
    /// leaves the field as it was.
    pub fn regenerate(&mut self, angle_noise: &Vec<i32>, length_noise: &Vec<i32>) -> (r: Result<
        (),
        FieldError,
    >)
        requires
            old(self).wf(),
        ensures
            final(self).wf(),
            old(self)@.fits(angle_noise@, length_noise@) ==> r is Ok && final(self)@ == old(
                self,
            )@.regenerated(angle_noise@, length_noise@),
            !old(self)@.fits(angle_noise@, length_noise@) ==> r == Err::<(), FieldError>(
                FieldError::NoiseSizeMismatch,
            ) && final(self)@ == old(self)@,
    {
        if angle_noise.len() != self.angles.len() || length_noise.len() != self.angles.len() {
            return Err(FieldError::NoiseSizeMismatch);
        }
        self.angles = rebuild_angles(angle_noise);
        self.lengths = rebuild_lengths(length_noise, self.length_min, self.length_max);
        assert(self@ =~= old(self)@.regenerated(angle_noise@, length_noise@));
        Ok(())
    }

    /// Replaces the magnitude range and rebuilds the magnitudes from noise
    /// sampled for `length_request()` (the range does not change it). An
    /// empty range or noise of the wrong size leaves the field as it was.
    pub fn set_length_range(&mut self, min: i32, max: i32, length_noise: &Vec<i32>) -> (r: Result<
        (),
        FieldError,
    >)
        requires
            old(self).wf(),
        ensures
            final(self).wf(),
            min > max ==> r == Err::<(), FieldError>(FieldError::InvalidLengthRange) && final(self)@
                == old(self)@,
            min <= max && length_noise@.len() != old(self)@.cells() ==> r == Err::<(), FieldError>(
                FieldError::NoiseSizeMismatch,
            ) && final(self)@ == old(self)@,
            min <= max && length_noise@.len() == old(self)@.cells() ==> r is Ok && final(self)@ == (
            GridView {
                length_min: min,
                length_max: max,
                lengths: lengths_from(length_noise@, min, max),
                ..old(self)@
            }),
    {
        if min > max {
            return Err(FieldError::InvalidLengthRange);
        }
        if length_noise.len() != self.lengths.len() {
            return Err(FieldError::NoiseSizeMismatch);
        }
        self.length_min = min;
        self.length_max = max;
        self.lengths = rebuild_lengths(length_noise, min, max);
        assert(self@ =~= (GridView {
            length_min: min,
            length_max: max,
            lengths: lengths_from(length_noise@, min, max),
            ..old(self)@
        }));
        Ok(())
    }

    /// The magnitude noise that `set_length_seed_offset(offset, ..)` needs.
    pub fn seed_offset_request(&self, offset: i32) -> (r: NoiseRequest)
        ensures
            r == (GridView { length_seed_offset: offset, ..self@ }).length_request(),
    {
        request(
            self.seed.wrapping_sub(offset),
            self.width,
            self.height,
            self.lengths_offset,
            self.frequency_milli,
        )
    }

    /// Sets how far below the field's seed the magnitude channel's seed
    /// lies, and rebuilds the magnitudes from noise sampled for
    /// `seed_offset_request`. The directions are kept. Zero would give both
    /// channels one seed and is rejected; so is noise of the wrong size.
    pub fn set_length_seed_offset(&mut self, offset: i32, length_noise: &Vec<i32>) -> (r: Result<
        (),
        FieldError,
    >)
        requires
            old(self).wf(),
        ensures
            final(self).wf(),
            offset == 0 ==> r == Err::<(), FieldError>(FieldError::InvalidSeedOffset) && final(self)@
                == old(self)@,
            offset != 0 && length_noise@.len() != old(self)@.cells() ==> r == Err::<
                (),
                FieldError,
            >(FieldError::NoiseSizeMismatch) && final(self)@ == old(self)@,
            offset != 0 && length_noise@.len() == old(self)@.cells() ==> r is Ok && final(self)@
                == (GridView {
                length_seed_offset: offset,
                lengths: lengths_from(length_noise@, old(self)@.length_min, old(self)@.length_max),
                ..old(self)@
            }),
    {
        if offset == 0 {
            return Err(FieldError::InvalidSeedOffset);
        }
        if length_noise.len() != self.lengths.len() {
            return Err(FieldError::NoiseSizeMismatch);
        }
        self.length_seed_offset = offset;
        self.lengths = rebuild_lengths(length_noise, self.length_min, self.length_max);
        assert(self@ =~= (GridView {
            length_seed_offset: offset,
            lengths: lengths_from(length_noise@, old(self)@.length_min, old(self)@.length_max),
            ..old(self)@
        }));
        Ok(())
    }

    /// The noise that `set_frequency(frequency_milli, ..)` needs.
    pub fn frequency_requests(&self, frequency_milli: u32) -> (r: (NoiseRequest, NoiseRequest))
        ensures
            r == ((GridView { frequency_milli, ..self@ }).angle_request(), (GridView {
                frequency_milli,
                ..self@
            }).length_request()),
    {
        (
            request(self.seed, self.width, self.height, self.angles_offset, frequency_milli),
            request(
                self.seed.wrapping_sub(self.length_seed_offset),
                self.width,
                self.height,
                self.lengths_offset,
                frequency_milli,
            ),
        )
    }

    /// Sets the noise frequency, in thousandths of a cycle per sample, and
    /// rebuilds both channels from noise sampled for `frequency_requests`.
    /// Noise of the wrong size leaves the field as it was.
    pub fn set_frequency(
        &mut self,
        frequency_milli: u32,
        angle_noise: &Vec<i32>,
        length_noise: &Vec<i32>,
    ) -> (r: Result<(), FieldError>)
        requires
            old(self).wf(),
        ensures
            final(self).wf(),
            old(self)@.fits(angle_noise@, length_noise@) ==> r is Ok && final(self)@ == (GridView {
                frequency_milli,
                ..old(self)@
            }).regenerated(angle_noise@, length_noise@),
            !old(self)@.fits(angle_noise@, length_noise@) ==> r == Err::<(), FieldError>(
                FieldError::NoiseSizeMismatch,
            ) && final(self)@ == old(self)@,
    {
        if angle_noise.len() != self.angles.len() || length_noise.len() != self.angles.len() {
            return Err(FieldError::NoiseSizeMismatch);
        }
        self.frequency_milli = frequency_milli;
        self.angles = rebuild_angles(angle_noise);
        self.lengths = rebuild_lengths(length_noise, self.length_min, self.length_max);
        assert(self@ =~= (GridView { frequency_milli, ..old(self)@ }).regenerated(
            angle_noise@,
            length_noise@,
        ));
        Ok(())
    }

    /// The direction and magnitude of the cell that holds the point
    /// `(x, y)`, in `1 / FIXED_ONE` pixels. A point outside the domain is
    /// first clamped to it.
    pub fn get_vec_on_position(&self, x: i64, y: i64) -> (r: (u32, i32))
        requires
            self.wf(),
        ensures
            0 <= self@.index_at(x as int, y as int) < self@.cells(),
            r == self@.sample(x as int, y as int),
            r.0 < ANGLE_TURN,
            self@.length_min <= r.1 <= self@.length_max,
    {
        let cx = cell_index(x, self.cell_size, self.screen_width);
        let cy = cell_index(y, self.cell_size, self.screen_height);
        let n = self.angles.len();
        proof {
            lemma_index_in_grid(cx as int, cy as int, self.width as int, self.height as int);
            assert(cy * self.width <= cy * self.width + cx < n);
        }
        let i = (cy as u64 * self.width as u64 + cx as u64) as usize;
        (self.angles[i], self.lengths[i])
    }
    /// Cells per row.
    pub fn width(&self) -> (r: u32)
        ensures
            r == self@.width,
    {
        self.width
    }

    /// Cells per column.
    pub fn height(&self) -> (r: u32)
        ensures
            r == self@.height,
    {
        self.height
    }

    pub fn cell_size(&self) -> (r: u16)
        ensures
            r == self@.cell_size,
    {
        self.cell_size
    }

    pub fn seed(&self) -> (r: i32)
        ensures
            r == self@.seed,
    {
        self.seed
    }

    /// The direction of every cell, row after row.
    pub fn angles(&self) -> (r: &Vec<u32>)
        ensures
            r@ == self@.angles,
    {
        &self.angles
    }

    /// The magnitude of every cell, row after row.
    pub fn lengths(&self) -> (r: &Vec<i32>)
        ensures
            r@ == self@.lengths,
    {
        &self.lengths
    }

    pub fn frequency_milli(&self) -> (r: u32)
        ensures
            r == self@.frequency_milli,
    {
        self.frequency_milli
    }

    pub fn screen_width(&self) -> (r: u16)
        ensures
            r == self@.screen_width,
    {
        self.screen_width
    }

    pub fn screen_height(&self) -> (r: u16)
        ensures
            r == self@.screen_height,
    {
        self.screen_height
    }

    /// The noise the direction channel is built from.
    pub fn angle_request(&self) -> (r: NoiseRequest)
        ensures
            r == self@.angle_request(),
    {
        request(self.seed, self.width, self.height, self.angles_offset, self.frequency_milli)
    }

    /// The noise the magnitude channel is built from: the same window shape
    /// under a seed `length_seed_offset` below the field's seed.
    pub fn length_request(&self) -> (r: NoiseRequest)
        ensures
            r == self@.length_request(),
    {
        request(
            self.seed.wrapping_sub(self.length_seed_offset),
            self.width,
            self.height,
            self.lengths_offset,
            self.frequency_milli,
        )
    }
}

} // verus!
