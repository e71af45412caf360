use vstd::prelude::*;
use vstd::arithmetic::div_mod::{lemma_mod_mod, lemma_mod_multiples_vanish, lemma_small_mod};
use vstd::arithmetic::power2::{lemma2_to64, lemma2_to64_rest, lemma_pow2_adds, pow2};

verus! {

/// Width in bits of the machine word used for registers, memory and immediates.
pub const CPU_BITTAGE: usize = 16;

/// 2^128, the range of the host-native integer used for word arithmetic.
pub open spec fn native_range() -> nat {
    u128::MAX as nat + 1
}

/// A width-tagged machine value ("dynamically sized byte"): a one-bit flag or
/// an unsigned integer of 8, 16, 32, 64 or 128 bits.
#[derive(Debug, Clone, Copy, PartialEq, Eq, Structural)]
pub enum DSB {
    Flag(bool),
    U8(u8),
    U16(u16),
    U32(u32),
    U64(u64),
    U128(u128),
}

impl DSB {
    /// Number of bits of this value's width.
    pub open spec fn width(self) -> nat {
        match self {
            DSB::Flag(_) => 1,
            DSB::U8(_) => 8,
            DSB::U16(_) => 16,
            DSB::U32(_) => 32,
            DSB::U64(_) => 64,
            DSB::U128(_) => 128,
        }
    }

    /// 2^width: the number of values of this width.
    pub open spec fn modulus(self) -> nat {
        match self {
            DSB::Flag(_) => 2,
            DSB::U8(_) => 0x100,
            DSB::U16(_) => 0x1_0000,
            DSB::U32(_) => 0x1_0000_0000,
            DSB::U64(_) => 0x1_0000_0000_0000_0000,
            DSB::U128(_) => native_range(),
        }
    }

    /// The unsigned value held.
    pub open spec fn value(self) -> nat {
        match self {
            DSB::Flag(f) => if f { 1 } else { 0 },
            DSB::U8(n) => n as nat,
            DSB::U16(n) => n as nat,
            DSB::U32(n) => n as nat,
            DSB::U64(n) => n as nat,
            DSB::U128(n) => n as nat,
        }
    }

    /// The value held, as the host-native integer.
    pub open spec fn native(self) -> u128 {
        self.value() as u128
    }

    /// `n` wrapped into this value's width (two's-complement wraparound),
    /// tagged with the same width.
    pub open spec fn with_value(self, n: int) -> DSB {
        match self {
            DSB::Flag(_) => DSB::Flag(n % 2 == 1),
            DSB::U8(_) => DSB::U8((n % 0x100) as u8),
            DSB::U16(_) => DSB::U16((n % 0x1_0000) as u16),
            DSB::U32(_) => DSB::U32((n % 0x1_0000_0000) as u32),
            DSB::U64(_) => DSB::U64((n % 0x1_0000_0000_0000_0000) as u64),
            DSB::U128(_) => DSB::U128((n % native_range() as int) as u128),
        }
    }

    /// Whether the top bit of this width is set (the value is negative when
    /// read as two's complement).
    pub open spec fn is_negative(self) -> bool {
        2 * self.value() >= self.modulus()
    }

    /// The value read as a two's-complement signed integer of this width.
    pub open spec fn signed(self) -> int {
        if self.is_negative() {
            self.value() - self.modulus()
        } else {
            self.value() as int
        }
    }

    pub open spec fn sum(self, other: DSB) -> DSB {
        self.with_value(self.value() + other.value() as int)
    }

    pub open spec fn difference(self, other: DSB) -> DSB {
        self.with_value(self.value() - other.value())
    }

    pub open spec fn product(self, other: DSB) -> DSB {
        self.with_value((self.value() * other.value()) as int)
    }

    pub open spec fn quotient(self, other: DSB) -> DSB {
        self.with_value((self.value() / other.value()) as int)
    }

    pub open spec fn conjunction(self, other: DSB) -> DSB {
        self.with_value((self.native() & other.native()) as int)
    }

    pub open spec fn disjunction(self, other: DSB) -> DSB {
        self.with_value((self.native() | other.native()) as int)
    }

    pub open spec fn exclusion(self, other: DSB) -> DSB {
        self.with_value((self.native() ^ other.native()) as int)
    }

    /// Every bit of this width flipped.
    pub open spec fn complement(self) -> DSB {
        self.with_value(self.modulus() - 1 - self.value())
    }

    /// The shift count that a value stands for: the host-native wrapping
    /// shift masks it to the native width.
    pub open spec fn shift_count(self) -> u32 {
        (self.value() % 128) as u32
    }

    pub open spec fn shifted_left(self, amount: DSB) -> DSB {
        self.with_value((self.native() << amount.shift_count()) as int)
    }

    pub open spec fn shifted_right(self, amount: DSB) -> DSB {
        self.with_value((self.native() >> amount.shift_count()) as int)
    }

    /// Whether adding `other` as signed values leaves the signed range of
    /// this width.
    pub open spec fn add_overflows(self, other: DSB) -> bool {
        self.signed() + self.with_value(other.value() as int).signed() != self.sum(other).signed()
    }

    /// Whether subtracting `other` as signed values leaves the signed range
    /// of this width.
    pub open spec fn sub_overflows(self, other: DSB) -> bool {
        self.signed() - self.with_value(other.value() as int).signed()
            != self.difference(other).signed()
    }

    pub fn get_size(&self) -> (r: usize)
        ensures
            r == self.width(),
    {
        match self {
            DSB::Flag(_) => 1,
            DSB::U8(_) => 8,
            DSB::U16(_) => 16,
            DSB::U32(_) => 32,
            DSB::U64(_) => 64,
            DSB::U128(_) => 128,
        }
    }

    /// The value held, losslessly, as the host-native integer.
    pub fn to_u128(&self) -> (r: u128)
        ensures
            r == self.value(),
    {
        match self {
            DSB::Flag(f) => if *f { 1 } else { 0 },
            DSB::U8(n) => *n as u128,
            DSB::U16(n) => *n as u128,
            DSB::U32(n) => *n as u128,
            DSB::U64(n) => *n as u128,
            DSB::U128(n) => *n,
        }
    }

    /// The value held, as a host-native integer; same as `to_u128`.
    pub fn as_u128(&self) -> (r: u128)
        ensures
            r == self.value(),
    {
        self.to_u128()
    }

    /// The value held, truncated to `usize` (an address or a line number).
    pub fn as_usize(&self) -> (r: usize)
        ensures
            r == self.value() as usize,
            self.value() <= usize::MAX ==> r == self.value(),
    {
        match self {
            DSB::Flag(f) => if *f { 1 } else { 0 },
            DSB::U8(n) => *n as usize,
            DSB::U16(n) => *n as usize,
            DSB::U32(n) => *n as usize,
            DSB::U64(n) => *n as usize,
            DSB::U128(n) => *n as usize,
        }
    }

    /// A value of this width holding `value` truncated to the width.
    pub fn from_u128(&self, value: u128) -> (r: DSB)
        ensures
            r == self.with_value(value as int),
    {
        match self {
            DSB::Flag(_) => DSB::Flag(value % 2 == 1),
            DSB::U8(_) => DSB::U8((value % 0x100) as u8),
            DSB::U16(_) => DSB::U16((value % 0x1_0000) as u16),
            DSB::U32(_) => DSB::U32((value % 0x1_0000_0000) as u32),
            DSB::U64(_) => DSB::U64((value % 0x1_0000_0000_0000_0000) as u64),
            DSB::U128(_) => {
                proof {
                    lemma_small_mod(value as nat, native_range());
                }
                DSB::U128(value)
            },
        }
    }

    /// A machine word (of `CPU_BITTAGE` bits) holding `value` truncated to
    /// the word width.
    pub fn from_cpu_bittage(value: usize) -> (r: DSB)
        ensures
            r == DSB::U16(0).with_value(value as int),
            r.width() == CPU_BITTAGE,
    {
        DSB::U16(0).from_u128(value as u128)
    }

    /// The zero word of the machine width.
    pub fn zero() -> (r: DSB)
        ensures
            r == DSB::U16(0),
            r.width() == CPU_BITTAGE,
            r.value() == 0,
    {
        DSB::U16(0)
    }

    /// Wrapping addition; the flag is the carry: whether the true sum
    /// reaches 2^width.
    pub fn overflowing_add(&self, other: &DSB) -> (r: (DSB, bool))
        ensures
            r.0 == self.sum(*other),
            r.1 == (self.value() + other.value() >= self.modulus()),
    {
        let a = self.to_u128();
        let b = other.to_u128();
        match a.checked_add(b) {
            Some(s) => {
                let carry = s > self.max_native();
                (self.from_u128(s), carry)
            },
            None => {
                let s = a.wrapping_add(b);
                proof {
                    lemma_wrap_native(*self, a + b - native_range(), 1);
                }
                (self.from_u128(s), true)
            },
        }
    }

    /// Wrapping subtraction; the flag is the borrow: whether `other`'s value
    /// exceeds this one's.
    pub fn overflowing_sub(&self, other: &DSB) -> (r: (DSB, bool))
        ensures
            r.0 == self.difference(*other),
            r.1 == (self.value() < other.value()),
    {
        let a = self.to_u128();
        let b = other.to_u128();
        let d = a.wrapping_sub(b);
        if a < b {
            proof {
                lemma_wrap_native(*self, a - b, 1);
            }
        }
        (self.from_u128(d), a < b)
    }

    /// Wrapping multiplication.
    pub fn wrapping_mul(&self, other: &DSB) -> (r: DSB)
        ensures
            r == self.product(*other),
    {
        let a = self.to_u128();
        let b = other.to_u128();
        let p = a.wrapping_mul(b);
        proof {
            lemma_mod_native(*self, a * b);
        }
        self.from_u128(p)
    }

    /// Unsigned division; `None` when `other` is zero.
    pub fn checked_div(&self, other: &DSB) -> (r: Option<DSB>)
        ensures
            other.value() == 0 ==> r is None,
            other.value() != 0 ==> r == Some(self.quotient(*other)),
    {
        let a = self.to_u128();
        let b = other.to_u128();
        if b == 0 {
            None
        } else {
            Some(self.from_u128(a / b))
        }
    }

    pub fn bitand(&self, other: &DSB) -> (r: DSB)
        ensures
            r == self.conjunction(*other),
    {
        self.from_u128(self.to_u128() & other.to_u128())
    }

    pub fn bitor(&self, other: &DSB) -> (r: DSB)
        ensures
            r == self.disjunction(*other),
    {
        self.from_u128(self.to_u128() | other.to_u128())
    }

    pub fn bitxor(&self, other: &DSB) -> (r: DSB)
        ensures
            r == self.exclusion(*other),
    {
        self.from_u128(self.to_u128() ^ other.to_u128())
    }

    pub fn not(&self) -> (r: DSB)
        ensures
            r == self.complement(),
    {
        match self {
            DSB::Flag(f) => DSB::Flag(!*f),
            DSB::U8(n) => {
                let n = *n;
                assert(!n == 0xffu8 - n) by (bit_vector);
                DSB::U8(!n)
            },
            DSB::U16(n) => {
                let n = *n;
                assert(!n == 0xffffu16 - n) by (bit_vector);
                DSB::U16(!n)
            },
            DSB::U32(n) => {
                let n = *n;
                assert(!n == 0xffff_ffffu32 - n) by (bit_vector);
                DSB::U32(!n)
            },
            DSB::U64(n) => {
                let n = *n;
                assert(!n == 0xffff_ffff_ffff_ffffu64 - n) by (bit_vector);
                DSB::U64(!n)
            },
            DSB::U128(n) => {
                let n = *n;
                assert(!n == 0xffff_ffff_ffff_ffff_ffff_ffff_ffff_ffffu128 - n) by (bit_vector);
                proof {
                    lemma_small_mod((u128::MAX - n) as nat, native_range());
                }
                DSB::U128(!n)
            },
        }
    }

    /// Shift left by `amount`, read as a host-native wrapping shift count.
    pub fn shl(&self, amount: &DSB) -> (r: DSB)
        ensures
            r == self.shifted_left(*amount),
    {
        let s = (amount.to_u128() % 128) as u32;
        self.from_u128(self.to_u128() << s)
    }

    /// Logical shift right by `amount`, read as a host-native wrapping shift
    /// count.
    pub fn shr(&self, amount: &DSB) -> (r: DSB)
        ensures
            r == self.shifted_right(*amount),
    {
        let s = (amount.to_u128() % 128) as u32;
        self.from_u128(self.to_u128() >> s)
    }

    /// Whether the top bit of this width is set.
    pub fn negative(&self) -> (r: bool)
        ensures
            r == self.is_negative(),
    {
        match self {
            DSB::Flag(f) => *f,
            DSB::U8(n) => *n >= 0x80,
            DSB::U16(n) => *n >= 0x8000,
            DSB::U32(n) => *n >= 0x8000_0000,
            DSB::U64(n) => *n >= 0x8000_0000_0000_0000,
            DSB::U128(n) => *n >= 0x8000_0000_0000_0000_0000_0000_0000_0000,
        }
    }

    /// The largest value of this width, as a host-native integer.
    fn max_native(&self) -> (r: u128)
        ensures
            r == self.modulus() - 1,
    {
        match self {
            DSB::Flag(_) => 1,
            DSB::U8(_) => 0xff,
            DSB::U16(_) => 0xffff,
            DSB::U32(_) => 0xffff_ffff,
            DSB::U64(_) => 0xffff_ffff_ffff_ffff,
            DSB::U128(_) => 0xffff_ffff_ffff_ffff_ffff_ffff_ffff_ffff,
        }
    }
}

impl Default for DSB {
    fn default() -> (r: DSB)
        ensures
            r == DSB::U16(0),
    {
        DSB::U16(0)
    }
}

impl From<u8> for DSB {
    fn from(value: u8) -> DSB {
        DSB::U8(value)
    }
}

impl vstd::std_specs::convert::FromSpecImpl<u8> for DSB {
    open spec fn obeys_from_spec() -> bool {
        true
    }

    open spec fn from_spec(v: u8) -> DSB {
        DSB::U8(v)
    }
}

impl From<u16> for DSB {
    fn from(value: u16) -> DSB {
        DSB::U16(value)
    }
}

impl vstd::std_specs::convert::FromSpecImpl<u16> for DSB {
    open spec fn obeys_from_spec() -> bool {
        true
    }

    open spec fn from_spec(v: u16) -> DSB {
        DSB::U16(v)
    }
}

impl From<u32> for DSB {
    fn from(value: u32) -> DSB {
        DSB::U32(value)
    }
}

impl vstd::std_specs::convert::FromSpecImpl<u32> for DSB {
    open spec fn obeys_from_spec() -> bool {
        true
    }

    open spec fn from_spec(v: u32) -> DSB {
        DSB::U32(v)
    }
}

impl From<u64> for DSB {
    fn from(value: u64) -> DSB {
        DSB::U64(value)
    }
}

impl vstd::std_specs::convert::FromSpecImpl<u64> for DSB {
    open spec fn obeys_from_spec() -> bool {
        true
    }

    open spec fn from_spec(v: u64) -> DSB {
        DSB::U64(v)
    }
}

impl From<u128> for DSB {
    fn from(value: u128) -> DSB {
        DSB::U128(value)
    }
}

impl vstd::std_specs::convert::FromSpecImpl<u128> for DSB {
    open spec fn obeys_from_spec() -> bool {
        true
    }

    open spec fn from_spec(v: u128) -> DSB {
        DSB::U128(v)
    }
}

/// A `usize` becomes a machine word, truncated to `CPU_BITTAGE` bits.
impl From<usize> for DSB {
    fn from(value: usize) -> DSB {
        DSB::from_cpu_bittage(value)
    }
}

impl vstd::std_specs::convert::FromSpecImpl<usize> for DSB {
    open spec fn obeys_from_spec() -> bool {
        true
    }

    open spec fn from_spec(v: usize) -> DSB {
        DSB::U16(0).with_value(v as int)
    }
}

/// `native_range()` is a multiple of every width's modulus; returns the factor.
pub proof fn lemma_modulus_divides_native(w: DSB) -> (q: int)
    ensures
        q > 0,
        native_range() == w.modulus() * q,
{
    match w {
        DSB::Flag(_) => 0x8000_0000_0000_0000_0000_0000_0000_0000,
        DSB::U8(_) => 0x100_0000_0000_0000_0000_0000_0000_0000,
        DSB::U16(_) => 0x1_0000_0000_0000_0000_0000_0000_0000,
        DSB::U32(_) => 0x1_0000_0000_0000_0000_0000_0000,
        DSB::U64(_) => 0x1_0000_0000_0000_0000,
        DSB::U128(_) => 1,
    }
}

/// Adding a multiple of 2^128 does not change a wrapped value.
pub proof fn lemma_wrap_native(w: DSB, x: int, k: int)
    ensures
        w.with_value(x + k * native_range()) == w.with_value(x),
{
    let q = lemma_modulus_divides_native(w);
    let m = w.modulus() as int;
    assert(k * native_range() == m * (k * q)) by (nonlinear_arith)
        requires
            native_range() == m * q,
    ;
    lemma_mod_multiples_vanish(k * q, x, m);
}

/// Reducing modulo 2^128 first does not change a wrapped value.
pub proof fn lemma_mod_native(w: DSB, x: int)
    ensures
        w.with_value(x % native_range() as int) == w.with_value(x),
{
    let q = lemma_modulus_divides_native(w);
    let m = w.modulus() as int;
    lemma_mod_mod(x, m, q);
}

/// 2^width is the number of values of each width.
pub proof fn lemma_modulus_is_pow2(w: DSB)
    ensures
        w.modulus() == pow2(w.width()),
{
    lemma2_to64();
    lemma2_to64_rest();
    if w is U128 {
        lemma_pow2_adds(64, 64);
    }
}

/// Addition, subtraction and multiplication keep the width of their first
/// operand and wrap exactly as unsigned arithmetic of that width: the
/// result is the true result modulo 2^width.
pub proof fn law_width_preservation(a: DSB, b: DSB)
    ensures
        a.sum(b).width() == a.width(),
        a.difference(b).width() == a.width(),
        a.product(b).width() == a.width(),
        a.sum(b).value() == (a.value() + b.value() as int) % (pow2(a.width()) as int),
        a.difference(b).value() == (a.value() - b.value()) % (pow2(a.width()) as int),
        a.product(b).value() == ((a.value() * b.value()) as int) % (pow2(a.width()) as int),
{
    lemma_modulus_is_pow2(a);
}

/// Carry of an addition: the true sum reaches 2^width; borrow of a
/// subtraction: the subtrahend exceeds the minuend.
pub proof fn law_carry(a: DSB, b: DSB)
    requires
        a.width() == b.width(),
    ensures
        (a.value() + b.value() >= a.modulus()) == (a.value() + b.value() >= pow2(a.width())),
        a.sum(b).value() + (if a.value() + b.value() >= a.modulus() {
            a.modulus() as int
        } else {
            0
        }) == a.value() + b.value(),
        (a.value() < b.value()) == (a.value() - b.value() < 0),
        a.difference(b).value() == a.value() - b.value() + (if a.value() < b.value() {
            a.modulus() as int
        } else {
            0
        }),
{
    lemma_modulus_is_pow2(a);
    let m = a.modulus() as int;
    let s = a.value() + b.value() as int;
    assert(b.value() < m);
    if s >= m {
        lemma_small_mod((s - m) as nat, m as nat);
        vstd::arithmetic::div_mod::lemma_mod_sub_multiples_vanish(s, m);
    } else {
        lemma_small_mod(s as nat, m as nat);
    }
    let d = a.value() - b.value();
    if d < 0 {
        lemma_small_mod((d + m) as nat, m as nat);
        vstd::arithmetic::div_mod::lemma_mod_add_multiples_vanish(d, m);
    } else {
        lemma_small_mod(d as nat, m as nat);
    }
}

} // verus!
