use vstd::prelude::*;

verus! {

/// A single binary digit.
#[derive(Clone, Copy, Debug, PartialEq, Eq, Structural)]
pub enum Bit {
    Zero,
    One,
}

impl View for Bit {
    type V = nat;

    open spec fn view(&self) -> nat {
        match self {
            Bit::Zero => 0,
            Bit::One => 1,
        }
    }
}

/// Truth table of AND on the values 0 and 1.
pub open spec fn and_gate(x: nat, y: nat) -> nat {
    if x == 1 && y == 1 {
        1
    } else {
        0
    }
}

/// Truth table of OR on the values 0 and 1.
pub open spec fn or_gate(x: nat, y: nat) -> nat {
    if x == 1 || y == 1 {
        1
    } else {
        0
    }
}

/// Truth table of XOR on the values 0 and 1.
pub open spec fn xor_gate(x: nat, y: nat) -> nat {
    if x != y {
        1
    } else {
        0
    }
}

/// The bit whose value is `v`, for `v` in {0, 1}.
pub open spec fn bit_of(v: nat) -> Bit {
    if v == 1 {
        Bit::One
    } else {
        Bit::Zero
    }
}

impl Bit {
    /// The least significant bit of `n`.
    pub fn low_bit_of(n: u8) -> (r: Bit)
        ensures
            r@ == n % 2,
    {
        assert(n & 1 == n % 2) by (bit_vector);
        if n & 1 == 1 {
            Bit::One
        } else {
            Bit::Zero
        }
    }

    /// The value of the bit as an integer, 0 or 1.
    pub fn value(self) -> (r: u8)
        ensures
            r == self@,
    {
        match self {
            Bit::Zero => 0,
            Bit::One => 1,
        }
    }
}

impl core::ops::BitAnd for Bit {
    type Output = Bit;

    fn bitand(self, rhs: Bit) -> (r: Bit) {
        match (self, rhs) {
            (Bit::One, Bit::One) => Bit::One,
            _ => Bit::Zero,
        }
    }
}

impl vstd::std_specs::ops::BitAndSpecImpl for Bit {
    open spec fn obeys_bitand_spec() -> bool {
        true
    }

    open spec fn bitand_req(self, rhs: Bit) -> bool {
        true
    }

    open spec fn bitand_spec(self, rhs: Bit) -> Bit {
        bit_of(and_gate(self@, rhs@))
    }
}

impl core::ops::BitOr for Bit {
    type Output = Bit;

    fn bitor(self, rhs: Bit) -> (r: Bit) {
        match (self, rhs) {
            (Bit::Zero, Bit::Zero) => Bit::Zero,
            _ => Bit::One,
        }
    }
}

impl vstd::std_specs::ops::BitOrSpecImpl for Bit {
    open spec fn obeys_bitor_spec() -> bool {
        true
    }

    open spec fn bitor_req(self, rhs: Bit) -> bool {
        true
    }

    open spec fn bitor_spec(self, rhs: Bit) -> Bit {
        bit_of(or_gate(self@, rhs@))
    }
}

impl core::ops::BitXor for Bit {
    type Output = Bit;

    fn bitxor(self, rhs: Bit) -> (r: Bit) {
        if self == rhs {
            Bit::Zero
        } else {
            Bit::One
        }
    }
}

impl vstd::std_specs::ops::BitXorSpecImpl for Bit {
    open spec fn obeys_bitxor_spec() -> bool {
        true
    }

    open spec fn bitxor_req(self, rhs: Bit) -> bool {
        true
    }

    open spec fn bitxor_spec(self, rhs: Bit) -> Bit {
        bit_of(xor_gate(self@, rhs@))
    }
}

} // verus!
