//! Bodies that move in straight lines and bounce off the walls of an
//! axis-aligned box.
//!
//! Everything is fixed-point: a coordinate counts nano-units (1e-9 of a
//! world unit), a speed counts micro-units per second and a time step counts
//! milliseconds, so that `velocity * step` is exactly a coordinate and every
//! run of the simulation gives bit-identical results.

use vstd::prelude::*;

verus! {

/// Largest magnitude of a coordinate (about 1100 world units).
pub const COORD_LIMIT: i64 = 1_099_511_627_776;

/// Largest magnitude of a velocity component (about 1.1 million world units
/// per second).
pub const SPEED_LIMIT: i64 = 1_099_511_627_776;

/// Longest single step, in milliseconds.
pub const MAX_STEP_MS: i64 = 1_048_576;

/// Nano-units in one world unit.
pub const NANOS_PER_UNIT: i64 = 1_000_000_000;

/// Micro-units in one world unit.
pub const MICROS_PER_UNIT: i64 = 1_000_000;

/// A pair of fixed-point components.
#[derive(Clone, Copy, Debug, PartialEq, Eq, Structural)]
pub struct Vec2 {
    pub x: i64,
    pub y: i64,
}

/// A moving point: position in nano-units, velocity in micro-units per second.
#[derive(Clone, Copy, Debug, PartialEq, Eq, Structural)]
pub struct Body {
    pub position: Vec2,
    pub velocity: Vec2,
}

/// The walls: the closed box `[min.x, max.x] x [min.y, max.y]`.
#[derive(Clone, Copy, Debug, PartialEq, Eq, Structural)]
pub struct Bounds {
    pub min: Vec2,
    pub max: Vec2,
}

pub open spec fn coord_ok(c: i64) -> bool {
    -COORD_LIMIT <= c <= COORD_LIMIT
}

pub open spec fn speed_ok(v: i64) -> bool {
    -SPEED_LIMIT <= v <= SPEED_LIMIT
}

pub open spec fn step_ok(dt_ms: i64) -> bool {
    0 <= dt_ms <= MAX_STEP_MS
}

impl Vec2 {
    pub open spec fn wf_coord(self) -> bool {
        coord_ok(self.x) && coord_ok(self.y)
    }

    pub open spec fn wf_speed(self) -> bool {
        speed_ok(self.x) && speed_ok(self.y)
    }
}

impl Body {
    /// Position and velocity are within the representable range.
    pub open spec fn wf(self) -> bool {
        self.position.wf_coord() && self.velocity.wf_speed()
    }
}

impl Bounds {
    /// A non-empty box within the representable range.
    pub open spec fn wf(self) -> bool {
        &&& self.min.wf_coord()
        &&& self.max.wf_coord()
        &&& self.min.x <= self.max.x
        &&& self.min.y <= self.max.y
    }
}

/// One axis of one step: move by `v * dt`; a coordinate that ends past a wall
/// is put back on that wall and the velocity component is reversed.
pub open spec fn axis_after(p: i64, v: i64, lo: i64, hi: i64, dt_ms: i64) -> (i64, i64) {
    let q = p + v * dt_ms;
    if q < lo {
        (lo, -v as i64)
    } else if q > hi {
        (hi, -v as i64)
    } else {
        (q as i64, v)
    }
}

/// A body after one step of `dt_ms` milliseconds inside `bounds`.
pub open spec fn body_after(b: Body, bounds: Bounds, dt_ms: i64) -> Body {
    let (px, vx) = axis_after(b.position.x, b.velocity.x, bounds.min.x, bounds.max.x, dt_ms);
    let (py, vy) = axis_after(b.position.y, b.velocity.y, bounds.min.y, bounds.max.y, dt_ms);
    Body { position: Vec2 { x: px, y: py }, velocity: Vec2 { x: vx, y: vy } }
}

/// A body after `n` steps of `dt_ms` milliseconds.
pub open spec fn body_after_steps(b: Body, bounds: Bounds, dt_ms: i64, n: nat) -> Body
    decreases n,
{
    if n == 0 {
        b
    } else {
        body_after(body_after_steps(b, bounds, dt_ms, (n - 1) as nat), bounds, dt_ms)
    }
}

/// Every body of `bodies` after `n` steps.
pub open spec fn bodies_after_steps(bodies: Seq<Body>, bounds: Bounds, dt_ms: i64, n: nat) -> Seq<Body> {
    bodies.map_values(|b: Body| body_after_steps(b, bounds, dt_ms, n))
}

pub open spec fn all_wf(bodies: Seq<Body>) -> bool {
    forall|i: int| 0 <= i < bodies.len() ==> (#[trigger] bodies[i]).wf()
}

/// One step keeps a body representable.
pub proof fn lemma_body_after_wf(b: Body, bounds: Bounds, dt_ms: i64)
    requires
        b.wf(),
        bounds.wf(),
        step_ok(dt_ms),
    ensures
        body_after(b, bounds, dt_ms).wf(),
{
}

/// Any number of steps keeps a body representable.
pub proof fn lemma_body_after_steps_wf(b: Body, bounds: Bounds, dt_ms: i64, n: nat)
    requires
        b.wf(),
        bounds.wf(),
        step_ok(dt_ms),
    ensures
        body_after_steps(b, bounds, dt_ms, n).wf(),
    decreases n,
{
    if n > 0 {
        lemma_body_after_steps_wf(b, bounds, dt_ms, (n - 1) as nat);
        lemma_body_after_wf(body_after_steps(b, bounds, dt_ms, (n - 1) as nat), bounds, dt_ms);
    }
}

/// Running `m` steps and then `n` more is running `m + n` steps.
pub proof fn lemma_body_steps_compose(b: Body, bounds: Bounds, dt_ms: i64, m: nat, n: nat)
    ensures
        body_after_steps(body_after_steps(b, bounds, dt_ms, m), bounds, dt_ms, n)
            == body_after_steps(b, bounds, dt_ms, m + n),
    decreases n,
{
    if n > 0 {
        lemma_body_steps_compose(b, bounds, dt_ms, m, (n - 1) as nat);
    }
}

/// A body sitting on a wall and moving out through it is put back on that
/// wall with the velocity component reversed; this holds on either axis and
/// for either wall.
pub proof fn lemma_axis_bounce(p: i64, v: i64, lo: i64, hi: i64, dt_ms: i64)
    requires
        coord_ok(lo),
        coord_ok(hi),
        lo <= hi,
        speed_ok(v),
        0 < dt_ms <= MAX_STEP_MS,
        (p == hi && v > 0) || (p == lo && v < 0),
    ensures
        axis_after(p, v, lo, hi, dt_ms) == (p, -v as i64),
{
    assert(v > 0 ==> v * dt_ms > 0) by (nonlinear_arith)
        requires
            dt_ms > 0,
    ;
    assert(v < 0 ==> v * dt_ms < 0) by (nonlinear_arith)
        requires
            dt_ms > 0,
    ;
}

/// A move that ends inside the walls is not affected by them.
pub proof fn lemma_axis_inside(p: i64, v: i64, lo: i64, hi: i64, dt_ms: i64)
    requires
        lo <= p + v * dt_ms <= hi,
    ensures
        axis_after(p, v, lo, hi, dt_ms) == ((p + v * dt_ms) as i64, v),
{
}

/// Free flight: while no step would end past a wall, a body moves by exactly
/// `velocity * steps * dt` and keeps its velocity.
pub proof fn lemma_free_flight(b: Body, bounds: Bounds, dt_ms: i64, n: nat)
    requires
        forall|k: int|
            0 <= k <= n ==> {
                &&& bounds.min.x <= #[trigger] (b.position.x + b.velocity.x * (k * dt_ms)) <= bounds.max.x
                &&& bounds.min.y <= b.position.y + b.velocity.y * (k * dt_ms) <= bounds.max.y
            },
    ensures
        body_after_steps(b, bounds, dt_ms, n) == (Body {
            position: Vec2 {
                x: (b.position.x + b.velocity.x * (n * dt_ms)) as i64,
                y: (b.position.y + b.velocity.y * (n * dt_ms)) as i64,
            },
            velocity: b.velocity,
        }),
    decreases n,
{
    if n > 0 {
        let m = (n - 1) as nat;
        lemma_free_flight(b, bounds, dt_ms, m);
        let px = b.position.x + b.velocity.x * (m * dt_ms);
        let py = b.position.y + b.velocity.y * (m * dt_ms);
        assert(px + b.velocity.x * dt_ms == b.position.x + b.velocity.x * (n * dt_ms)) by (nonlinear_arith)
            requires
                px == b.position.x + b.velocity.x * (m * dt_ms),
                n == m + 1,
        ;
        assert(py + b.velocity.y * dt_ms == b.position.y + b.velocity.y * (n * dt_ms)) by (nonlinear_arith)
            requires
                py == b.position.y + b.velocity.y * (m * dt_ms),
                n == m + 1,
        ;
        assert(bounds.min.x <= b.position.x + b.velocity.x * (n * dt_ms) <= bounds.max.x);
        assert(bounds.min.x <= b.position.x + b.velocity.x * (m * dt_ms) <= bounds.max.x);
        let prev = body_after_steps(b, bounds, dt_ms, m);
        assert(prev.position.x == px && prev.position.y == py);
        lemma_axis_inside(prev.position.x, prev.velocity.x, bounds.min.x, bounds.max.x, dt_ms);
        lemma_axis_inside(prev.position.y, prev.velocity.y, bounds.min.y, bounds.max.y, dt_ms);
    } else {
        assert(b.velocity.x * (n * dt_ms) == 0 && b.velocity.y * (n * dt_ms) == 0) by (nonlinear_arith)
            requires
                n == 0,
        ;
    }
}

/// Moves one axis by one step.
pub fn step_axis(p: i64, v: i64, lo: i64, hi: i64, dt_ms: i64) -> (r: (i64, i64))
    requires
        coord_ok(p),
        speed_ok(v),
        coord_ok(lo),
        coord_ok(hi),
        lo <= hi,
        step_ok(dt_ms),
    ensures
        r == axis_after(p, v, lo, hi, dt_ms),
{
    assert(-SPEED_LIMIT * MAX_STEP_MS <= v * dt_ms <= SPEED_LIMIT * MAX_STEP_MS) by (nonlinear_arith)
        requires
            speed_ok(v),
            step_ok(dt_ms),
    ;
    let q: i64 = p + v * dt_ms;
    if q < lo {
        (lo, -v)
    } else if q > hi {
        (hi, -v)
    } else {
        (q, v)
    }
}

impl Body {
    /// Advances the body by one step of `dt_ms` milliseconds inside `bounds`.
    pub fn step(&mut self, bounds: &Bounds, dt_ms: i64)
        requires
            old(self).wf(),
            bounds.wf(),
            step_ok(dt_ms),
        ensures
            *final(self) == body_after(*old(self), *bounds, dt_ms),
            final(self).wf(),
    {
        let (px, vx) = step_axis(self.position.x, self.velocity.x, bounds.min.x, bounds.max.x, dt_ms);
        let (py, vy) = step_axis(self.position.y, self.velocity.y, bounds.min.y, bounds.max.y, dt_ms);
        self.position = Vec2 { x: px, y: py };
        self.velocity = Vec2 { x: vx, y: vy };
    }
}

} // verus!
