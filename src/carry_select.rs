use vstd::prelude::*;

use crate::bit::Bit;
use crate::ripple::{ripple_outcome, RippleCarryAdder};

verus! {

/// What a 16-bit addition of `a` and `b` returns: the sum where it fits in
/// sixteen bits, else the error "Overflow.".
pub open spec fn carry_select_outcome(a: u16, b: u16, r: Result<u16, &'static str>) -> bool {
    match r {
        Ok(v) => a + b < 0x10000 && v == a + b,
        Err(e) => a + b >= 0x10000 && e@ == "Overflow."@,
    }
}

/// What the selection step returns: the upper byte comes from the branch
/// that assumed carry 1 where the lower byte carried out, else from the
/// branch that assumed carry 0; the chosen branch's error is passed on, and
/// the other branch is not looked at.
pub open spec fn selection(
    lower_carry: bool,
    upper0: Result<u8, &'static str>,
    upper1: Result<u8, &'static str>,
    lower_sum: u8,
) -> Result<u16, &'static str> {
    let chosen = if lower_carry {
        upper1
    } else {
        upper0
    };
    match chosen {
        Ok(u) => Ok((u * 256 + lower_sum) as u16),
        Err(e) => Err(e),
    }
}

/// A 16-bit adder made of three 8-bit ripple-carry adders: the lower byte
/// is added with carry-in 0, and the upper byte is added twice, once under
/// each assumption on the carry out of the lower byte; the lower byte's
/// actual carry then selects one of the two upper results.
#[derive(Clone, Copy, Debug)]
pub struct CarrySelectAdder {
    upper_branch_carry1: RippleCarryAdder,
    upper_branch_carry0: RippleCarryAdder,
    lower: RippleCarryAdder,
}

impl CarrySelectAdder {
    /// An adder whose bits are all 0.
    pub fn new() -> (r: CarrySelectAdder) {
        CarrySelectAdder {
            upper_branch_carry1: RippleCarryAdder::new(),
            upper_branch_carry0: RippleCarryAdder::new(),
            lower: RippleCarryAdder::new(),
        }
    }

    /// Adds `a` and `b` by carry selection.
    ///
    /// Each upper-byte branch works on its own adder. Where the branch that
    /// is selected overflows, the addition fails with "Overflow."; an
    /// overflow of the discarded branch is of no account. So the addition
    /// fails exactly when the sum does not fit in sixteen bits.
    pub fn add(self, a: u16, b: u16) -> (r: Result<u16, &'static str>)
        ensures
            carry_select_outcome(a, b, r),
    {
        let mut this = self;
        let (a_high, a_low) = this.bisect(a);
        let (b_high, b_low) = this.bisect(b);
        let upper1 = this.upper_branch_carry1.add_with_carry_in(a_high, b_high, Bit::One);
        let upper0 = this.upper_branch_carry0.add_with_carry_in(a_high, b_high, Bit::Zero);
        let low = this.lower.add_with_carry_in(a_low, b_low, Bit::Zero);
        let lower_sum = this.lower.get_result();
        let lower_carry = low.is_err();
        let r = Self::select(lower_carry, upper0, upper1, lower_sum);
        r
    }

    /// Joins the lower byte's sum to the upper byte of the branch that its
    /// carry out selects.
    pub fn select(
        lower_carry: bool,
        upper0: Result<u8, &'static str>,
        upper1: Result<u8, &'static str>,
        lower_sum: u8,
    ) -> (r: Result<u16, &'static str>)
        ensures
            r == selection(lower_carry, upper0, upper1, lower_sum),
    {
        let chosen = if lower_carry {
            upper1
        } else {
            upper0
        };
        match chosen {
            Ok(u) => Ok(Self::combine(u, lower_sum)),
            Err(e) => Err(e),
        }
    }

    /// Splits `n` into its high and low bytes.
    pub fn bisect(&self, n: u16) -> (r: (u8, u8))
        ensures
            r.0 == n / 256,
            r.1 == n % 256,
    {
        let high = ((n & 0xFF00) >> 8u16) as u8;
        let low = (n & 0x00FF) as u8;
        assert(((n & 0xFF00) >> 8u16) as u8 == n / 256 && (n & 0x00FF) as u8 == n % 256)
            by (bit_vector);
        (high, low)
    }

    /// The 16-bit number with high byte `high` and low byte `low`.
    fn combine(high: u8, low: u8) -> (r: u16)
        ensures
            r == high * 256 + low,
    {
        let r = (high as u16) << 8u16 | low as u16;
        assert((high as u16) << 8u16 | low as u16 == high * 256 + low) by (bit_vector);
        r
    }
}

impl Default for CarrySelectAdder {
    fn default() -> (r: CarrySelectAdder) {
        CarrySelectAdder::new()
    }
}

} // verus!
