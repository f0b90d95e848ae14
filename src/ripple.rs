use vstd::arithmetic::power2::{lemma2_to64, lemma_pow2_unfold, pow2};
use vstd::prelude::*;

use crate::bit::Bit;
use crate::full_adder::FullAdder;

verus! {

/// Number of bit positions of a ripple-carry adder.
pub const WIDTH: usize = 8;

/// The number whose binary digits, from position `j` up to the most
/// significant, are the sums of `adders[j..8]`.
pub open spec fn packed_sums(adders: Seq<FullAdder>, j: int) -> nat
    decreases 8 - j,
{
    if j >= 8 {
        0
    } else {
        adders[j].sum@ + 2 * packed_sums(adders, j + 1)
    }
}

/// What an 8-bit addition of `a`, `b` and the carry `carry_in` returns:
/// the sum where it fits in eight bits, else the error "Overflow.".
pub open spec fn ripple_outcome(a: u8, b: u8, carry_in: nat, r: Result<u8, &'static str>) -> bool {
    match r {
        Ok(v) => a + b + carry_in < 256 && v == a + b + carry_in,
        Err(e) => a + b + carry_in >= 256 && e@ == "Overflow."@,
    }
}

/// An 8-bit addition is a function of its operands and carry-in alone: two
/// outcomes of the same addition are both the same sum, or both the same
/// error.
pub proof fn lemma_outcome_unique(
    a: u8,
    b: u8,
    carry_in: nat,
    r1: Result<u8, &'static str>,
    r2: Result<u8, &'static str>,
)
    requires
        ripple_outcome(a, b, carry_in, r1),
        ripple_outcome(a, b, carry_in, r2),
    ensures
        r1 is Ok <==> r2 is Ok,
        r1 is Ok ==> r1 == r2,
        r1 is Err ==> r1->Err_0@ == r2->Err_0@,
{
}

/// The mask of the bits below position `i`.
spec fn low_mask(i: u16) -> u16 {
    ((1u16 << i) - 1u16) as u16
}

/// The carry that enters position `i` when `a`, `b` and `c` are added.
spec fn carry_into(a: u16, b: u16, c: u16, i: u16) -> u16 {
    (((a & low_mask(i)) + (b & low_mask(i)) + c) as u16) >> i
}

/// Bit `i` of `a + b + c`.
spec fn sum_bit(a: u16, b: u16, c: u16, i: u16) -> u16 {
    (((a + b + c) as u16) >> i) & 1
}

/// One stage of the ripple: the full adder at position `i` sees the bits of
/// `a` and `b` there and the carry from below, and produces bit `i` of the
/// sum and the carry into position `i + 1`.
proof fn lemma_stage(a: u16, b: u16, c: u16, i: u16)
    by (bit_vector)
    requires
        a < 256,
        b < 256,
        c <= 1,
        i < 8,
    ensures
        (((a >> i) & 1) + ((b >> i) & 1) + carry_into(a, b, c, i)) % 2 == sum_bit(a, b, c, i),
        (((a >> i) & 1) + ((b >> i) & 1) + carry_into(a, b, c, i)) / 2 == carry_into(
            a,
            b,
            c,
            (i + 1) as u16,
        ),
{
}

/// `packed_sums` from position `j` is below `2^(8 - j)`.
proof fn lemma_packed_bound(adders: Seq<FullAdder>, j: int)
    requires
        0 <= j <= 8,
    ensures
        packed_sums(adders, j) < pow2((8 - j) as nat),
    decreases 8 - j,
{
    if j < 8 {
        lemma_packed_bound(adders, j + 1);
        lemma_pow2_unfold((8 - j) as nat);
    } else {
        lemma2_to64();
    }
}

/// Where the sums at every position are the bits of `s`, `packed_sums`
/// from position `j` is the low byte of `s` shifted right by `j`.
proof fn lemma_packed_value(adders: Seq<FullAdder>, s: u16, j: int)
    requires
        0 <= j <= 8,
        s < 512,
        forall|k: int| 0 <= k < 8 ==> #[trigger] adders[k].sum@ == ((s >> (k as u16)) & 1),
    ensures
        packed_sums(adders, j) == (s & 255) >> (j as u16),
    decreases 8 - j,
{
    let jj = j as u16;
    if j < 8 {
        lemma_packed_value(adders, s, j + 1);
        assert(((s >> jj) & 1) + 2 * ((s & 255) >> ((jj + 1) as u16)) == (s & 255) >> jj)
            by (bit_vector)
            requires
                jj < 8,
        ;
        assert((j + 1) as u16 == (jj + 1) as u16);
    } else {
        assert((s & 255) >> jj == 0) by (bit_vector)
            requires
                jj == 8,
        ;
    }
}

/// Eight full adders chained so that the carry out of each position is the
/// carry into the next; position 0 holds the least significant bit.
///
/// The carry into position 0 is 0 on a new adder and is kept across
/// additions; `add_with_carry_in` sets it.
#[derive(Clone, Copy, Debug)]
pub struct RippleCarryAdder {
    adders: [FullAdder; 8],
}

impl RippleCarryAdder {
    /// The carry into the least significant position.
    pub closed spec fn carry_in(&self) -> nat {
        self.adders@[0].carry_in@
    }

    /// The number held in the sum bits of the eight positions.
    pub closed spec fn sum_value(&self) -> nat {
        packed_sums(self.adders@, 0)
    }

    /// The carry into each position above 0 is the carry out of the
    /// position below it.
    pub closed spec fn chained(&self) -> bool {
        forall|k: int| 0 <= k < 7 ==> #[trigger] self.adders@[k + 1].carry_in == self.adders@[k].carry_out
    }

    /// An adder whose bits are all 0.
    pub fn new() -> (r: RippleCarryAdder)
        ensures
            r.chained(),
            r.carry_in() == 0,
            r.sum_value() == 0,
    {
        let zero = FullAdder::new();
        let r = RippleCarryAdder { adders: [zero; 8] };
        proof {
            let s: u16 = 0;
            assert(r.adders == vstd::array::spec_array_fill_for_copy_type::<FullAdder, 8>(zero));
            assert forall|k: int| 0 <= k < 8 implies #[trigger] r.adders@[k].sum@ == ((s >> (
            k as u16)) & 1) by {
                let kk = k as u16;
                assert(r.adders@[k] == zero);
                assert((s >> kk) & 1 == 0) by (bit_vector)
                    requires
                        s == 0,
                ;
            }
            lemma_packed_value(r.adders@, s, 0);
            assert((s & 255) >> 0u16 == 0) by (bit_vector)
                requires
                    s == 0,
            ;
        }
        r
    }

    /// Adds `a`, `b` and the carry into position 0, position by position
    /// from the least significant; the carry out of each position becomes
    /// the carry into the next.
    ///
    /// Fails with "Overflow." exactly when the carry out of the most
    /// significant position is 1, that is when the sum does not fit in
    /// eight bits. Either way the sum bits are left holding the sum modulo
    /// 256, and the carry into position 0 is kept.
    pub fn add(&mut self, a: u8, b: u8) -> (r: Result<u8, &'static str>)
        ensures
            final(self).chained(),
            final(self).carry_in() == old(self).carry_in(),
            final(self).sum_value() == (a + b + old(self).carry_in()) % 256,
            ripple_outcome(a, b, old(self).carry_in(), r),
    {
        let ghost cin: u16 = self.adders@[0].carry_in@ as u16;
        let ghost aa: u16 = a as u16;
        let ghost bb: u16 = b as u16;
        let ghost s: u16 = (aa + bb + cin) as u16;
        proof {
            assert(carry_into(aa, bb, cin, 0) == cin) by (bit_vector)
                requires
                    cin <= 1,
            ;
        }
        let mut i: usize = 0;
        while i < WIDTH
            invariant
                i <= 8,
                cin <= 1,
                cin == old(self).adders@[0].carry_in@,
                aa == a,
                bb == b,
                s == aa + bb + cin,
                self.adders@[0].carry_in@ == cin,
                forall|k: int| 0 <= k < i ==> #[trigger] self.adders@[k].sum@ == ((s >> (k as u16)) & 1),
                i < 8 ==> self.adders@[i as int].carry_in@ == carry_into(aa, bb, cin, i as u16),
                i == 8 ==> s < 256,
                forall|k: int|
                    0 <= k < i && k < 7 ==> #[trigger] self.adders@[k + 1].carry_in
                        == self.adders@[k].carry_out,
            decreases 8 - i,
        {
            let ghost before = self.adders@;
            let sh: u8 = i as u8;
            let bit1 = Bit::low_bit_of(a >> sh);
            let bit2 = Bit::low_bit_of(b >> sh);
            let mut current = self.adders[i];
            current.add(bit1, bit2);
            self.adders[i] = current;
            proof {
                let ii = i as u16;
                assert(((a >> sh) % 2) as u16 == ((aa >> (sh as u16)) & 1)) by (bit_vector)
                    requires
                        aa == a,
                ;
                assert(((b >> sh) % 2) as u16 == ((bb >> (sh as u16)) & 1)) by (bit_vector)
                    requires
                        bb == b,
                ;
                assert(sh as u16 == ii);
                lemma_stage(aa, bb, cin, ii);
                assert forall|k: int| 0 <= k <= i implies #[trigger] self.adders@[k].sum@ == ((s
                    >> (k as u16)) & 1) by {
                    if k < i {
                        assert(self.adders@[k] == before[k]);
                    }
                }
            }
            if i < WIDTH - 1 {
                let mut next = self.adders[i + 1];
                next.carry_in = current.carry_out;
                self.adders[i + 1] = next;
                proof {
                    assert((i + 1) as u16 == (i as u16 + 1) as u16);
                }
            } else {
                proof {
                    assert(carry_into(aa, bb, cin, 8) == s >> 8u16 && (s >> 8u16 == 1 <==> s >= 256)
                        && (s >> 8u16 == 0 <==> s < 256)) by (bit_vector)
                        requires
                            aa < 256,
                            bb < 256,
                            cin <= 1,
                            s == aa + bb + cin,
                    ;
                    assert(((i as u16) + 1) as u16 == 8u16);
                }
                if current.carry_out == Bit::One {
                    proof {
                        self.lemma_sum_value(s);
                    }
                    return Err("Overflow.");
                }
            }
            i += 1;
        }
        proof {
            self.lemma_sum_value(s);
        }
        Ok(self.get_result())
    }

    /// Where the sum bits are those of `s`, they hold `s` modulo 256.
    proof fn lemma_sum_value(&self, s: u16)
        requires
            s < 512,
            forall|k: int| 0 <= k < 8 ==> #[trigger] self.adders@[k].sum@ == ((s >> (k as u16)) & 1),
        ensures
            self.sum_value() == s % 256,
    {
        lemma_packed_value(self.adders@, s, 0);
        assert((s & 255) >> 0u16 == s % 256) by (bit_vector);
    }

    /// Sets the carry into position 0 to `carry_in`, then adds as `add` does.
    pub fn add_with_carry_in(&mut self, a: u8, b: u8, carry_in: Bit) -> (r: Result<
        u8,
        &'static str,
    >)
        ensures
            final(self).chained(),
            final(self).carry_in() == carry_in@,
            final(self).sum_value() == (a + b + carry_in@) % 256,
            ripple_outcome(a, b, carry_in@, r),
    {
        let mut first = self.adders[0];
        first.carry_in = carry_in;
        self.adders[0] = first;
        self.add(a, b)
    }

    /// The number held in the sum bits, read from the most significant
    /// position down.
    pub fn get_result(&self) -> (r: u8)
        ensures
            r == self.sum_value(),
    {
        let mut result: u8 = 0;
        let mut k: usize = WIDTH;
        while k > 0
            invariant
                k <= 8,
                result == packed_sums(self.adders@, k as int),
            decreases k,
        {
            k -= 1;
            proof {
                lemma_packed_bound(self.adders@, k + 1);
                lemma2_to64();
                assert(pow2((8 - (k + 1)) as nat) <= 128) by {
                    if k > 0 {
                        vstd::arithmetic::power2::lemma_pow2_strictly_increases(
                            (8 - (k + 1)) as nat,
                            7,
                        );
                    }
                }
            }
            let s = self.adders[k].sum.value();
            assert(result < 128 && s <= 1 ==> (result << 1u8) | s == 2 * result + s)
                by (bit_vector);
            result = (result << 1u8) | s;
        }
        result
    }
}

impl Default for RippleCarryAdder {
    fn default() -> (r: RippleCarryAdder)
        ensures
            r.chained(),
            r.carry_in() == 0,
            r.sum_value() == 0,
    {
        RippleCarryAdder::new()
    }
}

} // verus!
