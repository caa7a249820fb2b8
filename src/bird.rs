//! Particles advected through the flow field with damped, explicit-Euler
//! steps and snap-to-opposite-edge wrapping.
use vstd::prelude::*;

use crate::field::{Grid, GridView};
use crate::fixed::{div_toward_zero, divide_toward_zero, lemma_scale_bounds, ANGLE_TURN, FIXED_ONE};

verus! {

/// Largest coordinate magnitude, in `1 / FIXED_ONE` pixels, that a particle
/// may hold and still be stepped.
pub const POSITION_LIMIT: i64 = 0x200_0000_0000;

/// Largest velocity component magnitude a particle may hold.
pub const VELOCITY_LIMIT: i64 = 0x100_0000_0000;

/// Velocity kept after each step: `DRAG_NUMERATOR / DRAG_DENOMINATOR`.
pub const DRAG_NUMERATOR: i64 = 19;

pub const DRAG_DENOMINATOR: i64 = 20;

/// Unit direction vectors, `(cos, sin)` in fixed point, for equal slices of
/// a full turn: entry `k` of `n` stands for the angles in
/// `[k * ANGLE_TURN / n, (k + 1) * ANGLE_TURN / n)`.
pub struct DirectionTable {
    units: Vec<(i32, i32)>,
}

/// How far the squared length of a table entry may stray from
/// `FIXED_ONE * FIXED_ONE`: enough for components rounded to the nearest unit.
pub const DIRECTION_TOLERANCE: i64 = 2048;

/// An entry of unit length, within the tolerance.
pub open spec fn is_unit(c: int, s: int) -> bool {
    &&& -FIXED_ONE <= c <= FIXED_ONE
    &&& -FIXED_ONE <= s <= FIXED_ONE
    &&& FIXED_ONE * FIXED_ONE - DIRECTION_TOLERANCE <= c * c + s * s <= FIXED_ONE * FIXED_ONE
        + DIRECTION_TOLERANCE
}

/// A usable table: at least one entry, at most one per angle unit, and
/// every entry a unit vector.
pub open spec fn valid_directions(units: Seq<(i32, i32)>) -> bool {
    &&& 1 <= units.len() <= ANGLE_TURN
    &&& forall|k: int| 0 <= k < units.len() ==> is_unit((#[trigger] units[k]).0 as int, units[k].1 as int)
}

/// The entry of the table that covers `angle`.
pub open spec fn direction_at(units: Seq<(i32, i32)>, angle: int) -> (i32, i32) {
    units[angle * units.len() / (ANGLE_TURN as int)]
}

impl View for DirectionTable {
    type V = Seq<(i32, i32)>;

    closed spec fn view(&self) -> Seq<(i32, i32)> {
        self.units@
    }
}

impl DirectionTable {
    pub open spec fn wf(&self) -> bool {
        valid_directions(self@)
    }

    /// Takes a table of unit vectors; `None` if it is not usable.
    pub fn new(units: Vec<(i32, i32)>) -> (r: Option<DirectionTable>)
        ensures
            r is Some <==> valid_directions(units@),
            r is Some ==> r->Some_0@ == units@,
    {
        let n = units.len();
        if n == 0 || n > ANGLE_TURN as usize {
            return None;
        }
        let mut k: usize = 0;
        while k < n
            invariant
                n == units@.len(),
                k <= n,
                forall|j: int| 0 <= j < k ==> is_unit((#[trigger] units@[j]).0 as int, units@[j].1 as int),
            decreases n - k,
        {
            let (c, s) = units[k];
            if (c as i64) < -FIXED_ONE || (c as i64) > FIXED_ONE || (s as i64) < -FIXED_ONE
                || (s as i64) > FIXED_ONE {
                return None;
            }
            let c64 = c as i64;
            let s64 = s as i64;
            assert(0 <= c64 * c64 <= FIXED_ONE * FIXED_ONE && 0 <= s64 * s64 <= FIXED_ONE * FIXED_ONE)
                by (nonlinear_arith)
                requires
                    -FIXED_ONE <= c64 <= FIXED_ONE,
                    -FIXED_ONE <= s64 <= FIXED_ONE,
            ;
            let norm = c64 * c64 + s64 * s64;
            if norm < FIXED_ONE * FIXED_ONE - DIRECTION_TOLERANCE || norm > FIXED_ONE * FIXED_ONE
                + DIRECTION_TOLERANCE {
                return None;
            }
            k = k + 1;
        }
        Some(DirectionTable { units })
    }

    /// The unit vector for `angle`.
    pub fn at(&self, angle: u32) -> (r: (i32, i32))
        requires
            self.wf(),
            angle < ANGLE_TURN,
        ensures
            r == direction_at(self@, angle as int),
            -FIXED_ONE <= r.0 <= FIXED_ONE,
            -FIXED_ONE <= r.1 <= FIXED_ONE,
    {
        let n = self.units.len();
        proof {
            lemma_scale_bounds(angle as int, n as int, ANGLE_TURN as int);
        }
        let k = ((angle as u64 * n as u64) / ANGLE_TURN as u64) as usize;
        assert(is_unit(self@[k as int].0 as int, self@[k as int].1 as int));
        self.units[k]
    }
}

/// One coordinate after wrapping: below zero it snaps to the far edge,
/// beyond the far edge it snaps to zero.
pub open spec fn wrap_coord(v: int, extent: int) -> int {
    if v < 0 {
        extent
    } else if v > extent {
        0
    } else {
        v
    }
}

/// A velocity component after drag.
pub open spec fn drag(v: int) -> int {
    div_toward_zero(v * DRAG_NUMERATOR, DRAG_DENOMINATOR as int)
}

/// The acceleration along one axis from a unit-vector component and a
/// magnitude.
pub open spec fn accel(component: int, length: int) -> int {
    div_toward_zero(component * length, FIXED_ONE as int)
}

pub open spec fn abs(v: int) -> int {
    if v < 0 {
        -v
    } else {
        v
    }
}

/// A particle: position in `1 / FIXED_ONE` pixels and velocity per tick.
#[derive(Clone, Copy, Debug)]
pub struct Bird {
    pub x: i64,
    pub y: i64,
    pub vel: (i64, i64),
}

/// The particle after one step through the field `g` with directions
/// `units`: wrap, sample, accelerate, drag, move.
pub open spec fn stepped(b: Bird, g: GridView, units: Seq<(i32, i32)>) -> Bird {
    let x = wrap_coord(b.x as int, g.screen_width * FIXED_ONE);
    let y = wrap_coord(b.y as int, g.screen_height * FIXED_ONE);
    let (angle, length) = g.sample(x, y);
    let d = direction_at(units, angle as int);
    let vx = drag(b.vel.0 + accel(d.0 as int, length as int));
    let vy = drag(b.vel.1 + accel(d.1 as int, length as int));
    Bird { x: (x + vx) as i64, y: (y + vy) as i64, vel: (vx as i64, vy as i64) }
}

/// Drag never raises a speed: `20 * |drag(u)| <= 19 * |u|`.
proof fn lemma_drag_shrinks(u: int)
    ensures
        DRAG_DENOMINATOR * abs(drag(u)) <= DRAG_NUMERATOR * abs(u),
{
}

/// An acceleration is no larger than its magnitude.
proof fn lemma_accel_bounded(component: int, length: int)
    requires
        -FIXED_ONE <= component <= FIXED_ONE,
    ensures
        abs(accel(component, length)) <= abs(length),
{
    assert(abs(component * length) <= FIXED_ONE * abs(length)) by (nonlinear_arith)
        requires
            -FIXED_ONE <= component <= FIXED_ONE,
    ;
}

/// With every acceleration at most `bound` in magnitude, a speed of at most
/// `19 * bound` (the steady state of drag 19/20) stays at most `19 * bound`
/// after a step: the speed never diverges.
pub proof fn lemma_drag_keeps_speed_bounded(v: int, a: int, bound: int)
    requires
        abs(a) <= bound,
        abs(v) <= DRAG_NUMERATOR * bound,
    ensures
        abs(drag(v + a)) <= DRAG_NUMERATOR * bound,
{
    lemma_drag_shrinks(v + a);
}

/// A velocity component after accelerating by each of `accels` in turn,
/// with drag after each.
pub open spec fn drag_run(v: int, accels: Seq<int>) -> int
    decreases accels.len(),
{
    if accels.len() == 0 {
        v
    } else {
        drag_run(drag(v + accels[0]), accels.drop_first())
    }
}

/// Over any number of steps whose accelerations are at most `bound` in
/// magnitude, a velocity that starts at most `19 * bound` (at rest, say)
/// never exceeds `19 * bound`.
pub proof fn lemma_speed_bounded_over_ticks(v: int, accels: Seq<int>, bound: int)
    requires
        abs(v) <= DRAG_NUMERATOR * bound,
        forall|i: int| 0 <= i < accels.len() ==> abs(#[trigger] accels[i]) <= bound,
    ensures
        abs(drag_run(v, accels)) <= DRAG_NUMERATOR * bound,
    decreases accels.len(),
{
    if accels.len() > 0 {
        lemma_drag_keeps_speed_bounded(v, accels[0], bound);
        let rest = accels.drop_first();
        assert forall|i: int| 0 <= i < rest.len() implies abs(#[trigger] rest[i]) <= bound by {
            assert(rest[i] == accels[i + 1]);
        }
        lemma_speed_bounded_over_ticks(drag(v + accels[0]), rest, bound);
    }
}

/// Under a constant acceleration `a`, the velocity `19 * a` is a fixed point
/// of the step: accelerated it is `20 * a`, and drag brings it back.
pub proof fn lemma_drag_steady_state(a: int)
    ensures
        drag(DRAG_NUMERATOR * a + a) == DRAG_NUMERATOR * a,
{
}

/// Wrapping snaps to the opposite edge rather than taking a remainder: a
/// coordinate past the far edge becomes 0, one below zero becomes the far
/// edge, and one inside is kept.
pub proof fn lemma_wrap_snaps(v: int, extent: int)
    requires
        extent >= 0,
    ensures
        v > extent ==> wrap_coord(v, extent) == 0,
        v < 0 ==> wrap_coord(v, extent) == extent,
        0 <= v <= extent ==> wrap_coord(v, extent) == v,
        0 <= wrap_coord(v, extent) <= extent,
{
}

impl Bird {
    /// Coordinates and velocity within the limits that keep a step free of
    /// overflow.
    pub open spec fn wf(&self) -> bool {
        &&& abs(self.x as int) <= POSITION_LIMIT
        &&& abs(self.y as int) <= POSITION_LIMIT
        &&& abs(self.vel.0 as int) <= VELOCITY_LIMIT
        &&& abs(self.vel.1 as int) <= VELOCITY_LIMIT
    }

    /// A particle at rest at `(x, y)`.
    pub fn new(x: i64, y: i64) -> (b: Bird)
        ensures
            b.x == x,
            b.y == y,
            b.vel == (0i64, 0i64),
    {
        Bird { x, y, vel: (0, 0) }
    }

    /// Wraps the position into the domain `[0, width] x [0, height]`.
    pub fn wrap(&mut self, width: i64, height: i64)
        requires
            width >= 0,
            height >= 0,
        ensures
            final(self).x == wrap_coord(old(self).x as int, width as int),
            final(self).y == wrap_coord(old(self).y as int, height as int),
            final(self).vel == old(self).vel,
    {
        if self.x < 0 {
            self.x = width;
        } else if self.x > width {
            self.x = 0;
        }
        if self.y < 0 {
            self.y = height;
        } else if self.y > height {
            self.y = 0;
        }
    }

    /// One step through the field: wrap into the grid's domain, sample the
    /// cell, add the field's vector to the velocity, apply drag, and move by
    /// the new velocity.
    pub fn tick(&mut self, grid: &Grid, directions: &DirectionTable)
        requires
            old(self).wf(),
            grid.wf(),
            directions.wf(),
        ensures
            final(self).wf(),
            *final(self) == stepped(*old(self), grid@, directions@),
    {
        let width = grid.screen_width() as i64 * FIXED_ONE;
        let height = grid.screen_height() as i64 * FIXED_ONE;
        self.wrap(width, height);
        let (angle, length) = grid.get_vec_on_position(self.x, self.y);
        let (c, s) = directions.at(angle);
        proof {
            assert(abs(c * length) <= FIXED_ONE * 0x8000_0000) by (nonlinear_arith)
                requires
                    -FIXED_ONE <= c <= FIXED_ONE,
                    -0x8000_0000 <= length < 0x8000_0000,
            ;
            assert(abs(s * length) <= FIXED_ONE * 0x8000_0000) by (nonlinear_arith)
                requires
                    -FIXED_ONE <= s <= FIXED_ONE,
                    -0x8000_0000 <= length < 0x8000_0000,
            ;
        }
        let ax = divide_toward_zero(c as i64 * length as i64, FIXED_ONE);
        let ay = divide_toward_zero(s as i64 * length as i64, FIXED_ONE);
        proof {
            lemma_accel_bounded(c as int, length as int);
            lemma_accel_bounded(s as int, length as int);
            lemma_drag_shrinks(self.vel.0 + ax);
            lemma_drag_shrinks(self.vel.1 + ay);
        }
        let vx = divide_toward_zero((self.vel.0 + ax) * DRAG_NUMERATOR, DRAG_DENOMINATOR);
        let vy = divide_toward_zero((self.vel.1 + ay) * DRAG_NUMERATOR, DRAG_DENOMINATOR);
        self.vel = (vx, vy);
        self.x = self.x + vx;
        self.y = self.y + vy;
    }
}

/// Steps every particle once through the same field.
pub fn tick_birds(birds: &mut Vec<Bird>, grid: &Grid, directions: &DirectionTable)
    requires
        forall|i: int| 0 <= i < old(birds)@.len() ==> (#[trigger] old(birds)@[i]).wf(),
        grid.wf(),
        directions.wf(),
    ensures
        final(birds)@.len() == old(birds)@.len(),
        forall|i: int|
            0 <= i < final(birds)@.len() ==> (#[trigger] final(birds)@[i]) == stepped(
                old(birds)@[i],
                grid@,
                directions@,
            ) && final(birds)@[i].wf(),
{
    let n = birds.len();
    let mut i: usize = 0;
    while i < n
        invariant
            n == birds@.len(),
            n == old(birds)@.len(),
            i <= n,
            grid.wf(),
            directions.wf(),
            forall|j: int|
                0 <= j < i ==> (#[trigger] birds@[j]) == stepped(old(birds)@[j], grid@, directions@)
                    && birds@[j].wf(),
            forall|j: int| i <= j < n ==> #[trigger] birds@[j] == old(birds)@[j],
            forall|j: int| 0 <= j < n ==> (#[trigger] old(birds)@[j]).wf(),
        decreases n - i,
    {
        let mut b = birds[i];
        b.tick(grid, directions);
        birds.set(i, b);
        i = i + 1;
    }
}

/// Adds a particle at rest at `(x, y)`, unless a coordinate is beyond
/// `POSITION_LIMIT`; says whether it did.
pub fn spawn(birds: &mut Vec<Bird>, x: i64, y: i64) -> (r: bool)
    ensures
        r == (abs(x as int) <= POSITION_LIMIT && abs(y as int) <= POSITION_LIMIT),
        r ==> final(birds)@ == old(birds)@.push(Bird { x, y, vel: (0, 0) }),
        !r ==> final(birds)@ == old(birds)@,
{
    if x < -POSITION_LIMIT || x > POSITION_LIMIT || y < -POSITION_LIMIT || y > POSITION_LIMIT {
        return false;
    }
    birds.push(Bird::new(x, y));
    true
}

} // verus!
