use vstd::prelude::*;

use crate::bit::{or_gate, Bit};
use crate::half_adder::HalfAdder;

verus! {

/// Adds two bits and a carry-in by way of two half adders.
///
/// `carry_in` is set from outside (the previous stage of a chain) and is 0
/// on a new adder; `sum` and `carry_out` hold the outcome of the last
/// addition.
#[derive(Clone, Copy, Debug)]
pub struct FullAdder {
    pub carry_in: Bit,
    pub carry_out: Bit,
    pub sum: Bit,
    pub halfadder1: HalfAdder,
    pub halfadder2: HalfAdder,
}

impl FullAdder {
    /// A full adder with every bit 0.
    pub fn new() -> (r: FullAdder)
        ensures
            r.carry_in == Bit::Zero,
            r.carry_out == Bit::Zero,
            r.sum == Bit::Zero,
    {
        FullAdder {
            carry_in: Bit::Zero,
            carry_out: Bit::Zero,
            sum: Bit::Zero,
            halfadder1: HalfAdder::new(),
            halfadder2: HalfAdder::new(),
        }
    }

    /// Adds `a`, `b` and `carry_in`: the first half adder adds `a` and `b`,
    /// the second adds that sum and `carry_in`; `sum` is the second sum and
    /// `carry_out` the OR of the two carries.
    pub fn add(&mut self, a: Bit, b: Bit)
        ensures
            final(self).carry_in == old(self).carry_in,
            final(self).sum@ + 2 * final(self).carry_out@ == a@ + b@ + old(self).carry_in@,
            final(self).sum@ == (a@ + b@ + old(self).carry_in@) % 2,
            final(self).carry_out@ == (a@ + b@ + old(self).carry_in@) / 2,
    {
        self.halfadder1.add(a, b);
        self.halfadder2.add(self.halfadder1.sum, self.carry_in);
        self.sum = self.halfadder2.sum;
        self.carry_out = self.halfadder1.carry_out | self.halfadder2.carry_out;
        assert(self.carry_out@ == or_gate(self.halfadder1.carry_out@, self.halfadder2.carry_out@));
    }
}

impl Default for FullAdder {
    fn default() -> (r: FullAdder)
        ensures
            r.carry_in == Bit::Zero,
            r.carry_out == Bit::Zero,
            r.sum == Bit::Zero,
    {
        FullAdder::new()
    }
}

} // verus!
