//! A dimmable output: a duty value that ramps up by a fixed step and wraps
//! to zero before it reaches the maximum.

use vstd::prelude::*;

verus! {

/// How far one advance raises the duty.
pub const RAMP_STEP: u32 = 5;

/// The state of a dimmable output as mathematics sees it.
pub struct Ramp {
    pub duty: nat,
    pub max: nat,
}

impl Ramp {
    /// The duty never exceeds the maximum.
    pub open spec fn wf(self) -> bool {
        self.duty <= self.max
    }

    /// One advance: up by one step while the raised duty stays strictly
    /// below the maximum, else back to zero. The maximum itself is never
    /// reached, and there is no clamping to it.
    pub open spec fn advance(self) -> Ramp {
        if self.duty + RAMP_STEP < self.max {
            Ramp { duty: (self.duty + RAMP_STEP) as nat, max: self.max }
        } else {
            Ramp { duty: 0, max: self.max }
        }
    }

    /// `n` advances in a row.
    pub open spec fn advance_n(self, n: nat) -> Ramp
        decreases n,
    {
        if n == 0 {
            self
        } else {
            self.advance_n((n - 1) as nat).advance()
        }
    }
}

/// The number of advances after which a ramp that starts at zero is at zero
/// again: the number of multiples of the step below the maximum, and one
/// where there is none.
pub open spec fn ramp_period(max: nat) -> nat {
    if max == 0 {
        1
    } else {
        ((max - 1) / (RAMP_STEP as int) + 1) as nat
    }
}

/// One dimmable output: its current duty and the maximum it was made with.
#[derive(Debug, PartialEq, Eq)]
pub struct IntensityChannel {
    current_duty: u32,
    max_duty: u32,
}

impl View for IntensityChannel {
    type V = Ramp;

    closed spec fn view(&self) -> Ramp {
        Ramp { duty: self.current_duty as nat, max: self.max_duty as nat }
    }
}

impl Clone for IntensityChannel {
    fn clone(&self) -> (copy: Self)
        ensures
            copy == *self,
    {
        proof {
            use_type_invariant(self);
        }
        IntensityChannel { current_duty: self.current_duty, max_duty: self.max_duty }
    }
}

impl IntensityChannel {
    /// Holds of every channel there is: the duty is within the maximum.
    #[verifier::type_invariant]
    pub open spec fn inv(self) -> bool {
        self@.wf()
    }

    /// A channel at duty zero.
    pub fn new(max_duty: u32) -> (channel: Self)
        ensures
            channel@ == (Ramp { duty: 0, max: max_duty as nat }),
            channel@.wf(),
    {
        IntensityChannel { current_duty: 0, max_duty }
    }

    /// A channel at a given duty, where that duty is within the maximum.
    pub fn with_duty(current_duty: u32, max_duty: u32) -> (made: Option<Self>)
        ensures
            current_duty <= max_duty ==> made is Some && made->0@ == (Ramp {
                duty: current_duty as nat,
                max: max_duty as nat,
            }),
            current_duty > max_duty ==> made is None,
    {
        if current_duty <= max_duty {
            Some(IntensityChannel { current_duty, max_duty })
        } else {
            None
        }
    }

    /// The duty that the output is at.
    pub fn current_duty(&self) -> (duty: u32)
        ensures
            duty == self@.duty,
            self@.wf(),
        no_unwind
    {
        proof {
            use_type_invariant(self);
        }
        self.current_duty
    }

    /// The maximum that the channel was made with. It never changes.
    pub fn max_duty(&self) -> (max: u32)
        ensures
            max == self@.max,
            self@.wf(),
        no_unwind
    {
        proof {
            use_type_invariant(self);
        }
        self.max_duty
    }

    /// Ramp-then-wrap: raises the duty by one step, or resets it to zero
    /// where the raised duty would reach or pass the maximum.
    pub fn advance(&mut self)
        ensures
            final(self)@ == old(self)@.advance(),
            old(self)@.duty + RAMP_STEP < old(self)@.max ==> final(self)@.duty == old(self)@.duty
                + RAMP_STEP,
            old(self)@.duty + RAMP_STEP >= old(self)@.max ==> final(self)@.duty == 0,
            final(self)@.max == old(self)@.max,
            final(self)@.wf(),
        no_unwind
    {
        // The sum is taken in 64 bits: near the top of the range the raised
        // duty does not fit in 32, and is then past every maximum.
        let raised: u64 = self.current_duty as u64 + RAMP_STEP as u64;
        if raised < self.max_duty as u64 {
            self.current_duty = raised as u32;
        } else {
            self.current_duty = 0;
        }
    }
}

/// An advance keeps the maximum and the bound, and lands either on zero or
/// strictly below the maximum: the maximum is no resting place.
pub proof fn lemma_advance_stays_below_max(r: Ramp)
    ensures
        r.advance().max == r.max,
        r.advance().wf(),
        r.advance().duty == 0 || r.advance().duty < r.max,
        r.advance().duty == 0 || r.advance().duty == r.duty + RAMP_STEP,
{
}

/// The sawtooth: from zero, `n` advances give the step times the remainder
/// of `n` by the period. So the duty rises step by step through
/// `RAMP_STEP`, `2 * RAMP_STEP`, ... while the next value would stay below
/// the maximum, and the advance after that gives zero.
pub proof fn lemma_ramp_from_zero(max: nat, n: nat)
    ensures
        (Ramp { duty: 0, max }).advance_n(n) == (Ramp {
            duty: (RAMP_STEP * (n % ramp_period(max))) as nat,
            max,
        }),
    decreases n,
{
    let p = ramp_period(max) as int;
    if n == 0 {
        assert(0int % p == 0) by (nonlinear_arith)
            requires
                p > 0,
        ;
    } else {
        lemma_ramp_from_zero(max, (n - 1) as nat);
        let m = n as int;
        let j = (m - 1) % p;
        assert(0 <= j < p && m % p == (if j + 1 < p { j + 1 } else { 0 })) by (nonlinear_arith)
            requires
                p > 0,
                m >= 1,
                j == (m - 1) % p,
        ;
        assert(j + 1 < p <==> RAMP_STEP * j + RAMP_STEP < max);
    }
}

/// The same in two parts. While `n` steps stay below the maximum, `n`
/// advances from zero give `n` steps. And a full period of advances gives
/// zero again, not the maximum and nothing near it.
pub proof fn lemma_ramp_rises_then_wraps(max: nat, n: nat)
    ensures
        RAMP_STEP * n < max ==> (Ramp { duty: 0, max }).advance_n(n).duty == RAMP_STEP * n,
        (Ramp { duty: 0, max }).advance_n(ramp_period(max)).duty == 0,
        RAMP_STEP * ramp_period(max) >= max,
{
    let p = ramp_period(max) as int;
    lemma_ramp_from_zero(max, n);
    lemma_ramp_from_zero(max, ramp_period(max));
    assert(p % p == 0) by (nonlinear_arith)
        requires
            p > 0,
    ;
    if RAMP_STEP * n < max {
        let m = n as int;
        assert(m % p == m) by (nonlinear_arith)
            requires
                0 <= m < p,
        ;
    }
}

} // verus!
