use vstd::prelude::*;
use vstd::arithmetic::div_mod::{lemma_add_mod_noop, lemma_small_mod, lemma_mod_bound};
use crate::error::RizeError;
use crate::word::DSB;

verus! {

/// The holder of one machine value: the state of one register or one
/// memory location. Mutation needs `&mut`, so one stage at a time has
/// exclusive access while any number of readers may share it otherwise.
#[derive(Debug, Clone)]
pub struct Byte {
    pub dsb: DSB,
}

/// What a flagged operation on a cell reports.
#[derive(Debug, Clone)]
pub struct ByteOpResult {
    /// The cell's value before the operation.
    pub previous: DSB,
    /// The value the operation produced.
    pub result: DSB,
    /// Unsigned carry (for addition) or borrow (for subtraction).
    pub carry: bool,
    /// Signed (two's-complement) overflow.
    pub overflow: bool,
}

/// The value `b` stands for at the width of `a`.
pub open spec fn at_width_of(a: DSB, b: DSB) -> DSB {
    a.with_value(b.value() as int)
}

/// A wrapped value holds the argument modulo 2^width, at the same width.
pub proof fn lemma_with_value(w: DSB, n: int)
    ensures
        w.with_value(n).width() == w.width(),
        w.with_value(n).modulus() == w.modulus(),
        w.with_value(n).value() == n % (w.modulus() as int),
{
}

/// Every value lies below 2^width.
pub proof fn lemma_value_bound(w: DSB)
    ensures
        w.value() < w.modulus(),
        w.modulus() >= 2,
{
}

/// Signed overflow of an addition shows in the top bits: both operands have
/// the same sign and the result has the other one.
pub proof fn lemma_add_overflow(a: DSB, b: DSB)
    ensures
        a.add_overflows(b) == (a.is_negative() == at_width_of(a, b).is_negative()
            && a.sum(b).is_negative() != a.is_negative()),
{
    let m = a.modulus() as int;
    let bt = at_width_of(a, b);
    lemma_value_bound(a);
    lemma_with_value(a, b.value() as int);
    lemma_with_value(a, a.value() + b.value() as int);
    lemma_mod_bound(b.value() as int, m);
    lemma_add_mod_noop(a.value() as int, b.value() as int, m);
    lemma_small_mod(bt.value(), m as nat);
    lemma_small_mod(a.value(), m as nat);
    let s = a.value() + bt.value() as int;
    if s < m {
        lemma_small_mod(s as nat, m as nat);
    } else {
        lemma_small_mod((s - m) as nat, m as nat);
        vstd::arithmetic::div_mod::lemma_mod_sub_multiples_vanish(s, m);
    }
}

/// Signed overflow of a subtraction shows in the top bits: the operands have
/// different signs and the result has the subtrahend's sign.
pub proof fn lemma_sub_overflow(a: DSB, b: DSB)
    ensures
        a.sub_overflows(b) == (a.is_negative() != at_width_of(a, b).is_negative()
            && a.difference(b).is_negative() != a.is_negative()),
{
    let m = a.modulus() as int;
    let bt = at_width_of(a, b);
    lemma_value_bound(a);
    lemma_with_value(a, b.value() as int);
    lemma_with_value(a, a.value() - b.value());
    lemma_mod_bound(b.value() as int, m);
    vstd::arithmetic::div_mod::lemma_sub_mod_noop(a.value() as int, b.value() as int, m);
    lemma_small_mod(bt.value(), m as nat);
    lemma_small_mod(a.value(), m as nat);
    let d: int = a.value() - bt.value();
    if d >= 0 {
        lemma_small_mod(d as nat, m as nat);
    } else {
        lemma_small_mod((d + m) as nat, m as nat);
        vstd::arithmetic::div_mod::lemma_mod_add_multiples_vanish(d, m);
    }
}

impl Byte {
    pub fn new(dsb: DSB) -> (r: Byte)
        ensures
            r.dsb == dsb,
    {
        Byte { dsb }
    }

    pub fn read(&self) -> (r: DSB)
        ensures
            r == self.dsb,
    {
        self.dsb
    }

    /// Replaces the value; returns the previous one.
    pub fn write(&mut self, data: DSB) -> (prev: DSB)
        ensures
            prev == old(self).dsb,
            final(self).dsb == data,
    {
        let prev = self.dsb;
        self.dsb = data;
        prev
    }

    /// The value held, truncated to `usize`.
    pub fn as_decimal(&self) -> (r: usize)
        ensures
            r == self.dsb.value() as usize,
    {
        self.dsb.as_usize()
    }

    /// Wrapping addition in place.
    pub fn add(&mut self, data: DSB) -> (r: ByteOpResult)
        ensures
            r.previous == old(self).dsb,
            r.result == old(self).dsb.sum(data),
            r.carry == (old(self).dsb.value() + data.value() >= old(self).dsb.modulus()),
            r.overflow == old(self).dsb.add_overflows(data),
            final(self).dsb == r.result,
    {
        let prev = self.dsb;
        let (result, carry) = prev.overflowing_add(&data);
        let bt = prev.from_u128(data.to_u128());
        let overflow = prev.negative() == bt.negative() && result.negative() != prev.negative();
        proof {
            lemma_add_overflow(prev, data);
        }
        self.dsb = result;
        ByteOpResult { previous: prev, result, carry, overflow }
    }

    /// Wrapping subtraction in place.
    pub fn sub(&mut self, data: DSB) -> (r: ByteOpResult)
        ensures
            r.previous == old(self).dsb,
            r.result == old(self).dsb.difference(data),
            r.carry == (old(self).dsb.value() < data.value()),
            r.overflow == old(self).dsb.sub_overflows(data),
            final(self).dsb == r.result,
    {
        let prev = self.dsb;
        let (result, borrow) = prev.overflowing_sub(&data);
        let bt = prev.from_u128(data.to_u128());
        let overflow = prev.negative() != bt.negative() && result.negative() != prev.negative();
        proof {
            lemma_sub_overflow(prev, data);
        }
        self.dsb = result;
        ByteOpResult { previous: prev, result, carry: borrow, overflow }
    }

    /// Wrapping multiplication in place.
    pub fn mul(&mut self, data: DSB) -> (r: ByteOpResult)
        ensures
            r.previous == old(self).dsb,
            r.result == old(self).dsb.product(data),
            !r.carry && !r.overflow,
            final(self).dsb == r.result,
    {
        let prev = self.dsb;
        let result = prev.wrapping_mul(&data);
        self.dsb = result;
        ByteOpResult { previous: prev, result, carry: false, overflow: false }
    }

    /// Unsigned division in place; dividing by zero is an error and leaves
    /// the cell unchanged.
    pub fn div(&mut self, data: DSB) -> (r: Result<ByteOpResult, RizeError>)
        ensures
            data.value() == 0 <==> r is Err,
            r is Err ==> r->Err_0.type_ is Execute && *final(self) == *old(self),
            r is Ok ==> r->Ok_0.previous == old(self).dsb
                && r->Ok_0.result == old(self).dsb.quotient(data)
                && !r->Ok_0.carry && !r->Ok_0.overflow
                && final(self).dsb == r->Ok_0.result,
    {
        let prev = self.dsb;
        match prev.checked_div(&data) {
            None => Err(RizeError::execute("division by zero")),
            Some(result) => {
                self.dsb = result;
                Ok(ByteOpResult { previous: prev, result, carry: false, overflow: false })
            },
        }
    }

    pub fn bitand(&mut self, data: DSB) -> (r: ByteOpResult)
        ensures
            r.previous == old(self).dsb,
            r.result == old(self).dsb.conjunction(data),
            !r.carry && !r.overflow,
            final(self).dsb == r.result,
    {
        let prev = self.dsb;
        let result = prev.bitand(&data);
        self.dsb = result;
        ByteOpResult { previous: prev, result, carry: false, overflow: false }
    }

    pub fn bitor(&mut self, data: DSB) -> (r: ByteOpResult)
        ensures
            r.previous == old(self).dsb,
            r.result == old(self).dsb.disjunction(data),
            !r.carry && !r.overflow,
            final(self).dsb == r.result,
    {
        let prev = self.dsb;
        let result = prev.bitor(&data);
        self.dsb = result;
        ByteOpResult { previous: prev, result, carry: false, overflow: false }
    }

    pub fn bitxor(&mut self, data: DSB) -> (r: ByteOpResult)
        ensures
            r.previous == old(self).dsb,
            r.result == old(self).dsb.exclusion(data),
            !r.carry && !r.overflow,
            final(self).dsb == r.result,
    {
        let prev = self.dsb;
        let result = prev.bitxor(&data);
        self.dsb = result;
        ByteOpResult { previous: prev, result, carry: false, overflow: false }
    }

    pub fn bitnot(&mut self) -> (r: ByteOpResult)
        ensures
            r.previous == old(self).dsb,
            r.result == old(self).dsb.complement(),
            !r.carry && !r.overflow,
            final(self).dsb == r.result,
    {
        let prev = self.dsb;
        let result = prev.not();
        self.dsb = result;
        ByteOpResult { previous: prev, result, carry: false, overflow: false }
    }

    pub fn bitshl(&mut self, data: DSB) -> (r: ByteOpResult)
        ensures
            r.previous == old(self).dsb,
            r.result == old(self).dsb.shifted_left(data),
            !r.carry && !r.overflow,
            final(self).dsb == r.result,
    {
        let prev = self.dsb;
        let result = prev.shl(&data);
        self.dsb = result;
        ByteOpResult { previous: prev, result, carry: false, overflow: false }
    }

    pub fn bitshr(&mut self, data: DSB) -> (r: ByteOpResult)
        ensures
            r.previous == old(self).dsb,
            r.result == old(self).dsb.shifted_right(data),
            !r.carry && !r.overflow,
            final(self).dsb == r.result,
    {
        let prev = self.dsb;
        let result = prev.shr(&data);
        self.dsb = result;
        ByteOpResult { previous: prev, result, carry: false, overflow: false }
    }
}

impl Default for Byte {
    fn default() -> (r: Byte)
        ensures
            r.dsb == DSB::U16(0),
    {
        Byte { dsb: DSB::zero() }
    }
}

} // verus!
