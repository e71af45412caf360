use vstd::prelude::*;
use vstd::arithmetic::div_mod::{lemma_div_denominator, lemma_fundamental_div_mod};
use vstd::arithmetic::power2::{lemma_pow2_pos, lemma_pow2_unfold, pow2};
use vstd::bits::lemma_u128_shr_is_div;
use crate::word::DSB;

verus! {

/// Bit `k` (counting from the least significant, from 0) of `v`.
pub open spec fn bit_at(v: nat, k: nat) -> u8 {
    ((v / pow2(k)) % 2) as u8
}

/// The number that a sequence of bits writes, most significant first; any
/// non-zero entry counts as a one.
pub open spec fn bits_value(s: Seq<u8>) -> nat
    decreases s.len(),
{
    if s.len() == 0 {
        0
    } else {
        bits_value(s.drop_last()) * 2 + (if s.last() == 1 { 1nat } else { 0nat })
    }
}

/// The binary digits of a value, most significant first, one per bit of
/// its width.
#[derive(Debug)]
pub struct Bits {
    pub vec: Vec<u8>,
}

/// The first `i` bits of a `w`-bit value write the value shifted right by
/// `w - i`.
proof fn lemma_prefix_value(v: nat, w: nat, s: Seq<u8>, i: nat)
    requires
        i <= w,
        v < pow2(w),
        s.len() == i,
        forall|j: int| 0 <= j < i ==> #[trigger] s[j] == bit_at(v, (w - 1 - j) as nat),
    ensures
        bits_value(s) == v / pow2((w - i) as nat),
    decreases i,
{
    lemma_pow2_pos((w - i) as nat);
    if i == 0 {
        vstd::arithmetic::div_mod::lemma_basic_div(v as int, pow2(w) as int);
    } else {
        let k = (w - i) as nat;
        let p = s.drop_last();
        assert forall|j: int| 0 <= j < i - 1 implies #[trigger] p[j] == bit_at(v, (w - 1 - j) as nat) by {
            assert(p[j] == s[j]);
        }
        lemma_prefix_value(v, w, p, (i - 1) as nat);
        assert(s.last() == bit_at(v, k));
        lemma_pow2_unfold(k + 1);
        lemma_pow2_pos(k);
        lemma_div_denominator(v as int, pow2(k) as int, 2);
        let q = v / pow2(k);
        lemma_fundamental_div_mod(q as int, 2);
        assert(v / pow2(k + 1) == q / 2);
        assert((q % 2) as u8 == 1 <==> q % 2 == 1);
        assert(bits_value(s) == bits_value(p) * 2 + (if s.last() == 1 { 1nat } else { 0nat }));
    }
}

impl Bits {
    /// The bits of `value`, most significant first.
    pub fn from_dsb(value: DSB) -> (r: Bits)
        ensures
            r.vec@.len() == value.width(),
            forall|i: int|
                0 <= i < value.width() ==> #[trigger] r.vec@[i] == bit_at(
                    value.value(),
                    (value.width() - 1 - i) as nat,
                ),
            bits_value(r.vec@) == value.value(),
    {
        let v = value.to_u128();
        let w = value.get_size();
        let mut out: Vec<u8> = Vec::new();
        let mut i: usize = 0;
        while i < w
            invariant
                v == value.value(),
                w == value.width(),
                w <= 128,
                i <= w,
                out@.len() == i,
                forall|j: int|
                    0 <= j < i ==> #[trigger] out@[j] == bit_at(value.value(), (w - 1 - j) as nat),
            decreases w - i,
        {
            let k = (w - 1 - i) as u128;
            proof {
                lemma_u128_shr_is_div(v, k);
            }
            let bit = ((v >> k) % 2) as u8;
            out.push(bit);
            i = i + 1;
        }
        proof {
            crate::word::lemma_modulus_is_pow2(value);
            crate::cell::lemma_value_bound(value);
            lemma_prefix_value(value.value(), value.width(), out@, value.width());
            vstd::arithmetic::power2::lemma2_to64();
            assert(value.value() as int / 1 == value.value()) by (nonlinear_arith);
        }
        Bits { vec: out }
    }

    /// The number the bits write, most significant first.
    pub fn as_decimal(&self) -> (r: usize)
        requires
            bits_value(self.vec@) <= usize::MAX,
        ensures
            r == bits_value(self.vec@),
    {
        let n = self.vec.len();
        let mut acc: usize = 0;
        let mut i: usize = 0;
        while i < n
            invariant
                n == self.vec@.len(),
                i <= n,
                acc == bits_value(self.vec@.take(i as int)),
                bits_value(self.vec@) <= usize::MAX,
            decreases n - i,
        {
            let ghost prefix = self.vec@.take(i + 1);
            assert(prefix.drop_last() =~= self.vec@.take(i as int));
            proof {
                lemma_bits_prefix(self.vec@, i + 1);
            }
            acc = acc * 2 + if self.vec[i] == 1 {
                1
            } else {
                0
            };
            i = i + 1;
        }
        assert(self.vec@.take(n as int) =~= self.vec@);
        acc
    }
}

/// A prefix of a bit sequence never writes a larger number.
proof fn lemma_bits_prefix(s: Seq<u8>, i: int)
    requires
        0 <= i <= s.len(),
    ensures
        bits_value(s.take(i)) <= bits_value(s),
    decreases s.len(),
{
    if i < s.len() {
        let d = s.drop_last();
        assert(d.take(i) =~= s.take(i));
        lemma_bits_prefix(d, i);
    } else {
        assert(s.take(i) =~= s);
    }
}

} // verus!
