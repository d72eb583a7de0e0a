//! The simulated world: bouncing bodies inside walls, advanced by a
//! fixed-step clock.

use vstd::prelude::*;
use crate::motion::{
    all_wf, body_after, body_after_steps, bodies_after_steps, lemma_body_after_steps_wf,
    lemma_body_steps_compose, step_ok, Body, Bounds, Vec2,
};
use crate::timestep::{lemma_advance_split, ClockModel, FixedTimestep};

verus! {

/// Nanoseconds in one millisecond.
pub const NANOS_PER_MILLI: u64 = 1_000_000;

/// Bodies, walls, the step size in milliseconds and the clock that
/// decides when to step.
pub struct World {
    bodies: Vec<Body>,
    bounds: Bounds,
    step_ms: i64,
    clock: FixedTimestep,
}

/// What a `World` holds, as mathematical values.
pub struct WorldModel {
    pub bodies: Seq<Body>,
    pub bounds: Bounds,
    pub step_ms: i64,
    pub clock: ClockModel,
}

impl WorldModel {
    pub open spec fn wf(self) -> bool {
        &&& all_wf(self.bodies)
        &&& self.bounds.wf()
        &&& 0 < self.step_ms && step_ok(self.step_ms)
        &&& self.clock.wf()
        &&& self.clock.step == self.step_ms * NANOS_PER_MILLI
    }

    /// Steps that `elapsed` more nanoseconds of wall time allow.
    pub open spec fn steps_for(self, elapsed: nat) -> nat {
        self.clock.steps_for(elapsed)
    }

    /// The world after `elapsed` more nanoseconds: every body advanced by the
    /// whole steps that the gathered time allows, the rest kept as lag.
    pub open spec fn ticked(self, elapsed: nat) -> WorldModel {
        WorldModel {
            bodies: bodies_after_steps(self.bodies, self.bounds, self.step_ms, self.steps_for(elapsed)),
            bounds: self.bounds,
            step_ms: self.step_ms,
            clock: self.clock.advanced(elapsed),
        }
    }
}

impl View for World {
    type V = WorldModel;

    closed spec fn view(&self) -> WorldModel {
        WorldModel { bodies: self.bodies@, bounds: self.bounds, step_ms: self.step_ms, clock: self.clock@ }
    }
}

/// Stepping `m` times and then `n` times is stepping `m + n` times, body by body.
pub proof fn lemma_bodies_steps_compose(bodies: Seq<Body>, bounds: Bounds, dt_ms: i64, m: nat, n: nat)
    ensures
        bodies_after_steps(bodies_after_steps(bodies, bounds, dt_ms, m), bounds, dt_ms, n)
            == bodies_after_steps(bodies, bounds, dt_ms, m + n),
{
    assert forall|i: int| 0 <= i < bodies.len() implies
        bodies_after_steps(bodies_after_steps(bodies, bounds, dt_ms, m), bounds, dt_ms, n)[i]
            == bodies_after_steps(bodies, bounds, dt_ms, m + n)[i] by {
        lemma_body_steps_compose(bodies[i], bounds, dt_ms, m, n);
    }
    assert(bodies_after_steps(bodies_after_steps(bodies, bounds, dt_ms, m), bounds, dt_ms, n)
        =~= bodies_after_steps(bodies, bounds, dt_ms, m + n));
}

/// Stepping keeps every body representable.
pub proof fn lemma_bodies_after_steps_wf(bodies: Seq<Body>, bounds: Bounds, dt_ms: i64, n: nat)
    requires
        all_wf(bodies),
        bounds.wf(),
        step_ok(dt_ms),
    ensures
        all_wf(bodies_after_steps(bodies, bounds, dt_ms, n)),
{
    assert forall|i: int| 0 <= i < bodies.len() implies
        (#[trigger] bodies_after_steps(bodies, bounds, dt_ms, n)[i]).wf() by {
        lemma_body_after_steps_wf(bodies[i], bounds, dt_ms, n);
    }
}

/// Determinism of the fixed step: how wall time is split over ticks does not
/// matter. Two ticks of `e1` and `e2` nanoseconds leave the world exactly as
/// one tick of `e1 + e2` does.
pub proof fn lemma_tick_split(w: WorldModel, e1: nat, e2: nat)
    requires
        w.wf(),
    ensures
        w.ticked(e1).ticked(e2) == w.ticked(e1 + e2),
{
    lemma_advance_split(w.clock, e1, e2);
    lemma_bodies_steps_compose(w.bodies, w.bounds, w.step_ms, w.steps_for(e1), w.ticked(e1).steps_for(e2));
}

/// From a clock with no lag, a tick of exactly `n` steps of wall time runs
/// `n` steps and leaves no lag; a body that meets no wall on the way then
/// ends at `position + velocity * n * step` with its velocity unchanged.
pub proof fn lemma_tick_free_flight(w: WorldModel, n: nat, i: int)
    requires
        w.wf(),
        w.clock.lag == 0,
        0 <= i < w.bodies.len(),
        forall|k: int|
            0 <= k <= n ==> {
                &&& w.bounds.min.x <= #[trigger] (w.bodies[i].position.x + w.bodies[i].velocity.x * (k
                    * w.step_ms)) <= w.bounds.max.x
                &&& w.bounds.min.y <= w.bodies[i].position.y + w.bodies[i].velocity.y * (k * w.step_ms)
                    <= w.bounds.max.y
            },
    ensures
        w.steps_for(n * w.clock.step) == n,
        w.ticked(n * w.clock.step).clock.lag == 0,
        w.ticked(n * w.clock.step).bodies[i] == (Body {
            position: Vec2 {
                x: (w.bodies[i].position.x + w.bodies[i].velocity.x * (n * w.step_ms)) as i64,
                y: (w.bodies[i].position.y + w.bodies[i].velocity.y * (n * w.step_ms)) as i64,
            },
            velocity: w.bodies[i].velocity,
        }),
{
    let d = w.clock.step as int;
    vstd::arithmetic::div_mod::lemma_fundamental_div_mod_converse((n * w.clock.step) as int, d, n as int, 0);
    crate::motion::lemma_free_flight(w.bodies[i], w.bounds, w.step_ms, n);
}

impl World {
    /// An empty world inside `bounds` that steps every `step_ms` milliseconds.
    pub fn new(bounds: Bounds, step_ms: i64) -> (r: World)
        requires
            bounds.wf(),
            0 < step_ms <= crate::motion::MAX_STEP_MS,
        ensures
            r@.bodies == Seq::<Body>::empty(),
            r@.bounds == bounds,
            r@.step_ms == step_ms,
            r@.clock == (ClockModel { step: (step_ms * NANOS_PER_MILLI) as nat, lag: 0 }),
            r@.wf(),
    {
        let step_ns: u64 = (step_ms as u64) * NANOS_PER_MILLI;
        World { bodies: Vec::new(), bounds, step_ms, clock: FixedTimestep::new(step_ns) }
    }

    /// Adds a body; its index is the number of bodies before the call.
    pub fn spawn(&mut self, body: Body)
        requires
            old(self)@.wf(),
            body.wf(),
        ensures
            final(self)@ == (WorldModel { bodies: old(self)@.bodies.push(body), ..old(self)@ }),
            final(self)@.wf(),
    {
        self.bodies.push(body);
    }

    /// Number of bodies.
    pub fn len(&self) -> (r: usize)
        ensures
            r == self@.bodies.len(),
    {
        self.bodies.len()
    }

    /// The body at index `i`.
    pub fn body(&self, i: usize) -> (r: Body)
        requires
            i < self@.bodies.len(),
        ensures
            r == self@.bodies[i as int],
    {
        self.bodies[i]
    }

    /// The walls.
    pub fn bounds(&self) -> (r: Bounds)
        ensures
            r == self@.bounds,
    {
        self.bounds
    }

    /// Time gathered and not yet spent, in nanoseconds.
    pub fn lag_ns(&self) -> (r: u64)
        ensures
            r == self@.clock.lag,
    {
        self.clock.lag_ns()
    }

    /// The position of every body, in order: the offsets of the drawn
    /// instances.
    pub fn positions(&self) -> (r: Vec<Vec2>)
        ensures
            r@ == self@.bodies.map_values(|b: Body| b.position),
    {
        let mut r: Vec<Vec2> = Vec::new();
        let mut i: usize = 0;
        while i < self.bodies.len()
            invariant
                i <= self.bodies.len(),
                r@ == self.bodies@.subrange(0, i as int).map_values(|b: Body| b.position),
            decreases self.bodies.len() - i,
        {
            r.push(self.bodies[i].position);
            proof {
                assert(self.bodies@.subrange(0, i + 1) =~= self.bodies@.subrange(0, i as int).push(self.bodies@[i as int]));
            }
            i = i + 1;
        }
        assert(self.bodies@.subrange(0, self.bodies.len() as int) =~= self.bodies@);
        r
    }

    /// Advances every body by one step.
    fn step_all(&mut self)
        requires
            old(self)@.wf(),
        ensures
            final(self)@ == (WorldModel {
                bodies: bodies_after_steps(old(self)@.bodies, old(self)@.bounds, old(self)@.step_ms, 1),
                ..old(self)@
            }),
            final(self)@.wf(),
    {
        let ghost start = self.bodies@;
        let mut i: usize = 0;
        while i < self.bodies.len()
            invariant
                old(self)@.wf(),
                self.bounds == old(self).bounds,
                self.step_ms == old(self).step_ms,
                self.clock@ == old(self).clock@,
                start == old(self).bodies@,
                self.bodies@.len() == start.len(),
                i <= start.len(),
                forall|j: int| 0 <= j < i ==> self.bodies@[j] == body_after(start[j], self.bounds, self.step_ms),
                forall|j: int| i <= j < start.len() ==> self.bodies@[j] == start[j],
            decreases start.len() - i,
        {
            let mut b = self.bodies[i];
            proof {
                assert(all_wf(start));
                assert(start[i as int].wf());
            }
            b.step(&self.bounds, self.step_ms);
            self.bodies.set(i, b);
            i = i + 1;
        }
        proof {
            assert forall|j: int| 0 <= j < start.len() implies
                self.bodies@[j] == bodies_after_steps(start, self.bounds, self.step_ms, 1)[j] by {
                assert(body_after_steps(start[j], self.bounds, self.step_ms, 0) == start[j]);
            }
            assert(self.bodies@ =~= bodies_after_steps(start, self.bounds, self.step_ms, 1));
            lemma_bodies_after_steps_wf(start, self.bounds, self.step_ms, 1);
        }
    }

    /// One tick of the loop: `elapsed_ns` of wall time is added to the lag and
    /// every whole step it holds is simulated. Returns whether at least one
    /// step was taken, that is whether the instances need uploading again.
    pub fn tick(&mut self, elapsed_ns: u64) -> (advanced: bool)
        requires
            old(self)@.wf(),
        ensures
            final(self)@ == old(self)@.ticked(elapsed_ns as nat),
            advanced == (old(self)@.steps_for(elapsed_ns as nat) > 0),
            final(self)@.wf(),
    {
        let ghost start = self@;
        let steps: u64 = self.clock.advance(elapsed_ns);
        proof {
            assert forall|j: int| 0 <= j < start.bodies.len() implies
                bodies_after_steps(start.bodies, start.bounds, start.step_ms, 0)[j] == start.bodies[j] by {
                assert(body_after_steps(start.bodies[j], start.bounds, start.step_ms, 0) == start.bodies[j]);
            }
            assert(bodies_after_steps(start.bodies, start.bounds, start.step_ms, 0) =~= start.bodies);
        }
        let mut k: u64 = 0;
        while k < steps
            invariant
                start.wf(),
                k <= steps,
                steps == start.steps_for(elapsed_ns as nat),
                self@ == (WorldModel {
                    bodies: bodies_after_steps(start.bodies, start.bounds, start.step_ms, k as nat),
                    clock: start.clock.advanced(elapsed_ns as nat),
                    ..start
                }),
                self@.wf(),
            decreases steps - k,
        {
            self.step_all();
            proof {
                lemma_bodies_steps_compose(start.bodies, start.bounds, start.step_ms, k as nat, 1);
            }
            k = k + 1;
        }
        steps > 0
    }
}

} // verus!
