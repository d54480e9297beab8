//! The on/off output.

use vstd::prelude::*;

verus! {

/// The level after `n` flips of an output that starts at `is_on`.
pub open spec fn flipped_n(is_on: bool, n: nat) -> bool
    decreases n,
{
    if n == 0 {
        is_on
    } else {
        !flipped_n(is_on, (n - 1) as nat)
    }
}

/// One binary output. Its view is its level.
#[derive(Debug, PartialEq, Eq)]
pub struct ToggleOutput {
    is_on: bool,
}

impl View for ToggleOutput {
    type V = bool;

    closed spec fn view(&self) -> bool {
        self.is_on
    }
}

impl Clone for ToggleOutput {
    fn clone(&self) -> (copy: Self)
        ensures
            copy == *self,
    {
        ToggleOutput { is_on: self.is_on }
    }
}

impl ToggleOutput {
    /// An output at the given level.
    pub fn new(is_on: bool) -> (output: Self)
        ensures
            output@ == is_on,
    {
        ToggleOutput { is_on }
    }

    /// The level that the output is at.
    pub fn is_on(&self) -> (on: bool)
        ensures
            on == self@,
        no_unwind
    {
        self.is_on
    }

    /// Negates the level, whatever it was.
    pub fn flip(&mut self)
        ensures
            final(self)@ == !old(self)@,
        no_unwind
    {
        self.is_on = !self.is_on;
    }
}

/// Two flips in a row give the level back.
pub proof fn lemma_double_flip(is_on: bool)
    ensures
        flipped_n(is_on, 2) == is_on,
{
    reveal_with_fuel(flipped_n, 3);
}

/// An even number of flips gives the level back; an odd number gives the
/// other level.
pub proof fn lemma_flip_parity(is_on: bool, n: nat)
    ensures
        n % 2 == 0 ==> flipped_n(is_on, n) == is_on,
        n % 2 == 1 ==> flipped_n(is_on, n) != is_on,
    decreases n,
{
    if n > 0 {
        lemma_flip_parity(is_on, (n - 1) as nat);
    }
}

} // verus!
