use vstd::prelude::*;

use crate::bit::{and_gate, xor_gate, Bit};

verus! {

/// Adds two bits, keeping the sum and the carry of its last addition.
#[derive(Clone, Copy, Debug)]
pub struct HalfAdder {
    pub carry_out: Bit,
    pub sum: Bit,
}

impl HalfAdder {
    /// A half adder with sum and carry 0.
    pub fn new() -> (r: HalfAdder)
        ensures
            r.carry_out == Bit::Zero,
            r.sum == Bit::Zero,
    {
        HalfAdder { carry_out: Bit::Zero, sum: Bit::Zero }
    }

    /// Sets `sum` to `a XOR b` and `carry_out` to `a AND b`, so that
    /// `sum + 2 * carry_out == a + b`.
    pub fn add(&mut self, a: Bit, b: Bit)
        ensures
            final(self).sum@ == xor_gate(a@, b@),
            final(self).carry_out@ == and_gate(a@, b@),
            final(self).sum@ + 2 * final(self).carry_out@ == a@ + b@,
    {
        self.carry_out = a & b;
        self.sum = a ^ b;
    }
}

impl Default for HalfAdder {
    fn default() -> (r: HalfAdder)
        ensures
            r.carry_out == Bit::Zero,
            r.sum == Bit::Zero,
    {
        HalfAdder::new()
    }
}

} // verus!
