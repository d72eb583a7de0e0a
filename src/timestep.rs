//! The fixed-timestep accumulator: wall-clock time is gathered into a lag,
//! and the lag is spent in whole steps of a fixed size.

use vstd::prelude::*;

verus! {

/// Fixed-step clock: a step size and the time gathered but not yet spent,
/// both in nanoseconds.
pub struct FixedTimestep {
    step_ns: u64,
    lag_ns: u64,
}

/// What a `FixedTimestep` holds, as plain numbers.
pub struct ClockModel {
    pub step: nat,
    pub lag: nat,
}

impl ClockModel {
    /// The step is positive and the lag is always less than one step.
    pub open spec fn wf(self) -> bool {
        self.step > 0 && self.lag < self.step
    }

    /// Whole steps that `elapsed` more nanoseconds make available.
    pub open spec fn steps_for(self, elapsed: nat) -> nat {
        (((self.lag + elapsed) as int) / (self.step as int)) as nat
    }

    /// The clock after `elapsed` more nanoseconds and the steps they allow.
    pub open spec fn advanced(self, elapsed: nat) -> ClockModel {
        ClockModel { step: self.step, lag: (((self.lag + elapsed) as int) % (self.step as int)) as nat }
    }
}

impl View for FixedTimestep {
    type V = ClockModel;

    closed spec fn view(&self) -> ClockModel {
        ClockModel { step: self.step_ns as nat, lag: self.lag_ns as nat }
    }
}

impl FixedTimestep {
    /// A clock with steps of `step_ns` nanoseconds and no time gathered yet.
    pub fn new(step_ns: u64) -> (r: FixedTimestep)
        requires
            step_ns > 0,
        ensures
            r@ == (ClockModel { step: step_ns as nat, lag: 0 }),
            r@.wf(),
    {
        FixedTimestep { step_ns, lag_ns: 0 }
    }

    /// Step size in nanoseconds.
    pub fn step_ns(&self) -> (r: u64)
        ensures
            r == self@.step,
    {
        self.step_ns
    }

    /// Time gathered and not yet spent, in nanoseconds.
    pub fn lag_ns(&self) -> (r: u64)
        ensures
            r == self@.lag,
    {
        self.lag_ns
    }

    /// Adds `elapsed_ns` to the lag and takes out every whole step it now
    /// holds; returns how many steps were taken out.
    pub fn advance(&mut self, elapsed_ns: u64) -> (steps: u64)
        requires
            old(self)@.wf(),
        ensures
            steps == old(self)@.steps_for(elapsed_ns as nat),
            final(self)@ == old(self)@.advanced(elapsed_ns as nat),
            final(self)@.wf(),
    {
        let total: u128 = self.lag_ns as u128 + elapsed_ns as u128;
        let step: u128 = self.step_ns as u128;
        let n: u128 = total / step;
        let rest: u128 = total % step;
        assert(n <= u64::MAX) by (nonlinear_arith)
            requires
                step >= 1,
                n == total / step,
                total <= step - 1 + u64::MAX,
                self.lag_ns < step,
                total == self.lag_ns + elapsed_ns,
                elapsed_ns <= u64::MAX,
        ;
        self.lag_ns = rest as u64;
        n as u64
    }
}

/// Splitting elapsed time over two calls of `advance` takes out as many steps
/// in all, and leaves the same lag, as one call with the sum.
pub proof fn lemma_advance_split(c: ClockModel, e1: nat, e2: nat)
    requires
        c.wf(),
    ensures
        c.steps_for(e1) + c.advanced(e1).steps_for(e2) == c.steps_for(e1 + e2),
        c.advanced(e1).advanced(e2) == c.advanced(e1 + e2),
{
    let d = c.step as int;
    let a: int = (c.lag + e1) as int;
    let q1: int = a / d;
    let r1: int = a % d;
    vstd::arithmetic::div_mod::lemma_fundamental_div_mod(a, d);
    let b: int = r1 + (e2 as int);
    let q2: int = b / d;
    let r2: int = b % d;
    vstd::arithmetic::div_mod::lemma_fundamental_div_mod(b, d);
    assert(c.lag + (e1 + e2) == (q1 + q2) * d + r2) by (nonlinear_arith)
        requires
            a == d * q1 + r1,
            b == d * q2 + r2,
            a == c.lag + e1,
            b == r1 + e2,
    ;
    vstd::arithmetic::div_mod::lemma_fundamental_div_mod_converse((c.lag + (e1 + e2)) as int, d, q1 + q2, r2);
}

} // verus!
