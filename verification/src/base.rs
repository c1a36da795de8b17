//! The prime field with modulus `2^64 - 2^32 + 1`.

use crate::fermat::lemma_inverse;
use crate::modular::{
    add_mod, congruent, inv_mod, lemma_congruent_by_multiple, lemma_mul_mod_assoc,
    lemma_mul_mod_reduce, lemma_pow_mod_adds, lemma_pow_mod_multiplies, lemma_pow_mod_step,
    modulus, mul_mod, neg_mod, pow_mod, sub_mod, M,
};
use crate::traits::{exp, pow_value, FieldElement};
use vstd::arithmetic::power::*;
use vstd::arithmetic::power2::{lemma2_to64, lemma_pow2_unfold, pow2};
use vstd::prelude::*;
use vstd::std_specs::cmp::PartialEqSpecImpl;
use vstd::std_specs::convert::FromSpecImpl;

verus! {

/// An element of the prime field with modulus [`M`].
///
/// The stored word is any 64-bit integer congruent to the element's value; it
/// need not be below the modulus. Two elements are equal when their values
/// are, whatever their stored words.
#[derive(Copy, Clone, Debug, Default)]
pub struct BaseElement(pub u64);

/// The word that reduction leaves of `x = ab + 2^64 * c + 2^96 * d`, where
/// `ab < 2^64` and `c < 2^32`: `ab - d + (2^32 - 1) * c`, corrected by at most
/// one multiple of the modulus in each direction. It is congruent to `x` and
/// fits in 64 bits, but it need not be below the modulus.
pub open spec fn reduced_word(x: int) -> int {
    let ab = x % 0x1_0000_0000_0000_0000;
    let c = (x / 0x1_0000_0000_0000_0000) % 0x1_0000_0000;
    let d = x / 0x1_0000_0000_0000_0000_0000_0000;
    let low = if ab >= d {
        ab - d
    } else {
        ab - d + modulus()
    };
    let sum = low + c * 0xFFFF_FFFF;
    if sum >= 0x1_0000_0000_0000_0000 {
        sum - modulus()
    } else {
        sum
    }
}

/// Reduces a 128-bit integer to a 64-bit word of the same residue class,
/// by shifts, additions and subtractions.
#[verifier::rlimit(40)]
pub fn mod_reduce(x: u128) -> (r: u64)
    ensures
        r == reduced_word(x as int),
        congruent(r as int, x as int),
{
    let ab: u64 = (x & 0xFFFF_FFFF_FFFF_FFFF) as u64;
    let cd: u64 = (x >> 64) as u64;
    let c: u64 = cd & 0xFFFF_FFFF;
    let d: u64 = cd >> 32;
    proof {
        assert(x & 0xFFFF_FFFF_FFFF_FFFF <= 0xFFFF_FFFF_FFFF_FFFF) by (bit_vector);
        assert(x >> 64 <= 0xFFFF_FFFF_FFFF_FFFF) by (bit_vector);
        assert(x == (x & 0xFFFF_FFFF_FFFF_FFFF) + 0x1_0000_0000_0000_0000 * (x >> 64))
            by (bit_vector);
        assert(cd == (cd & 0xFFFF_FFFF) + 0x1_0000_0000 * (cd >> 32)) by (bit_vector);
        assert(cd & 0xFFFF_FFFF <= 0xFFFF_FFFF) by (bit_vector);
        assert(cd >> 32 <= 0xFFFF_FFFF) by (bit_vector);
        assert(x & 0xFFFF_FFFF_FFFF_FFFF == x % 0x1_0000_0000_0000_0000) by (bit_vector);
        assert(x >> 64 == x / 0x1_0000_0000_0000_0000) by (bit_vector);
        assert(cd & 0xFFFF_FFFF == cd % 0x1_0000_0000) by (bit_vector);
        assert(cd >> 32 == cd / 0x1_0000_0000) by (bit_vector);
        assert((x / 0x1_0000_0000_0000_0000) / 0x1_0000_0000 == x
            / 0x1_0000_0000_0000_0000_0000_0000) by (bit_vector);
        assert(c << 32 == c * 0x1_0000_0000) by (bit_vector)
            requires
                c <= 0xFFFF_FFFF,
        ;
    }
    let tmp0: u64 = if ab >= d {
        ab - d
    } else {
        M - (d - ab)
    };
    let tmp1: u64 = (c << 32) - c;
    let sum: u128 = tmp0 as u128 + tmp1 as u128;
    let r: u64 = if sum > u64::MAX as u128 {
        (sum - M as u128) as u64
    } else {
        sum as u64
    };
    proof {
        let lift: int = if ab >= d { 0 } else { 1 };
        let drop: int = if sum > u64::MAX { 1 } else { 0 };
        let k: int = c + d * 0x1_0000_0001 + drop - lift;
        assert(x as int == r as int + k * modulus());
        lemma_congruent_by_multiple(x as int, r as int, k);
    }
    r
}

impl BaseElement {
    /// The field modulus.
    pub const MODULUS: u64 = 0xFFFF_FFFF_0000_0001;

    /// The largest `n` for which the field has a root of unity of order `2^n`.
    pub const TWO_ADICITY: u32 = 32;

    /// The number of bytes that one element is stored in.
    pub const ELEMENT_BYTES: usize = 8;

    /// Returns the element with value `value mod M`, stored in canonical form.
    pub fn new(value: u64) -> (r: BaseElement)
        ensures
            r.0 == value % M,
            r.value() == value as int % modulus(),
    {
        BaseElement(value % M)
    }

    /// Returns `self` raised to `power`, reduced modulo the field modulus.
    /// The zeroth power of every element, zero included, is one.
    pub fn exp(self, power: u64) -> (r: BaseElement)
        ensures
            r.value() == pow_mod(self.value(), power as nat),
    {
        proof {
            lemma_pow_value_is_pow_mod(self.value(), power as nat);
        }
        exp(self, power)
    }

    /// Returns the canonical integer of this element, which lies in `[0, M)`.
    pub fn as_int(&self) -> (r: u64)
        ensures
            r as int == self.value(),
            r < M,
    {
        if self.0 >= M {
            self.0 - M
        } else {
            self.0
        }
    }
}

/// Squaring a power of `a` `n` times and multiplying by another power of `a`
/// gives the power of `a` whose exponent is the first one shifted left by `n`,
/// plus the second.
pub proof fn lemma_exp_acc(a: int, e_base: nat, e_tail: nat, n: nat)
    ensures
        mul_mod(pow_mod(pow_mod(a, e_base), pow2(n)), pow_mod(a, e_tail)) == pow_mod(
            a,
            e_base * pow2(n) + e_tail,
        ),
{
    lemma_pow_mod_multiplies(a, e_base, pow2(n));
    lemma_pow_mod_adds(a, e_base * pow2(n), e_tail);
}

/// Squares `base` `n` times and multiplies the result by `tail`.
pub fn exp_acc(base: BaseElement, tail: BaseElement, n: u32) -> (r: BaseElement)
    ensures
        r.value() == mul_mod(pow_mod(base.value(), pow2(n as nat)), tail.value()),
{
    let mut result: BaseElement = base;
    let mut i: u32 = 0;
    proof {
        lemma2_to64();
        lemma_pow1(base.value());
    }
    while i < n
        invariant
            i <= n,
            result.value() == pow_mod(base.value(), pow2(i as nat)),
        decreases n - i,
    {
        proof {
            lemma_pow_mod_adds(base.value(), pow2(i as nat), pow2(i as nat));
            lemma_pow2_unfold((i + 1) as nat);
        }
        result = result.square();
        i = i + 1;
    }
    result.mul(tail)
}

/// The generic power of the field is integer exponentiation modulo `M`.
pub proof fn lemma_pow_value_is_pow_mod(a: int, e: nat)
    ensures
        pow_value::<BaseElement>(a, e) == pow_mod(a, e),
    decreases e,
{
    if e == 0 {
        reveal(pow);
    } else {
        lemma_pow_value_is_pow_mod(a, (e - 1) as nat);
        lemma_pow_mod_step(a, (e - 1) as nat);
    }
}

impl FieldElement for BaseElement {
    type Value = int;

    open spec fn value(&self) -> int {
        self.0 as int % modulus()
    }

    open spec fn zero_value() -> int {
        0
    }

    open spec fn one_value() -> int {
        1
    }

    open spec fn add_values(a: int, b: int) -> int {
        add_mod(a, b)
    }

    open spec fn sub_values(a: int, b: int) -> int {
        sub_mod(a, b)
    }

    open spec fn neg_value(a: int) -> int {
        neg_mod(a)
    }

    open spec fn mul_values(a: int, b: int) -> int {
        mul_mod(a, b)
    }

    open spec fn inv_value(a: int) -> int {
        inv_mod(a)
    }

    open spec fn conjugate_value(a: int) -> int {
        a
    }

    open spec fn is_canonical(v: int) -> bool {
        0 <= v < modulus()
    }

    proof fn lemma_value_is_canonical(x: BaseElement) {
    }

    proof fn lemma_mul_values(a: int, b: int, c: int) {
        lemma_mul_mod_assoc(a, b, c);
        assert(a * 1 == a && 1 * a == a);
    }

    proof fn lemma_inverse(x: BaseElement) {
        lemma_inverse(x.value());
    }

    fn zero() -> (r: Self)
        ensures
            r.0 == 0,
    {
        BaseElement(0)
    }

    fn one() -> (r: Self)
        ensures
            r.0 == 1,
    {
        BaseElement(1)
    }

    /// The sum is formed in 128 bits and brought back into 64 bits by
    /// subtracting the modulus at most once.
    fn add(self, rhs: Self) -> (r: Self) {
        let sum: u128 = self.0 as u128 + rhs.as_int() as u128;
        if sum > u64::MAX as u128 {
            BaseElement((sum - M as u128) as u64)
        } else {
            BaseElement(sum as u64)
        }
    }

    /// The difference is brought back into 64 bits by adding the modulus at
    /// most once.
    fn sub(self, rhs: Self) -> (r: Self) {
        let b: u64 = rhs.as_int();
        if self.0 >= b {
            BaseElement(self.0 - b)
        } else {
            BaseElement(M - (b - self.0))
        }
    }

    fn neg(self) -> (r: Self)
        ensures
            r.0 == neg_mod(self.value()),
    {
        let v: u64 = self.as_int();
        if v == 0 {
            BaseElement(0)
        } else {
            BaseElement(M - v)
        }
    }

    /// The full 128-bit product is reduced with [`mod_reduce`].
    fn mul(self, rhs: Self) -> (r: Self) {
        assert(self.0 as int * rhs.0 as int <= 0xFFFF_FFFF_FFFF_FFFF * 0xFFFF_FFFF_FFFF_FFFF)
            by (nonlinear_arith)
            requires
                0 <= self.0 <= 0xFFFF_FFFF_FFFF_FFFF,
                0 <= rhs.0 <= 0xFFFF_FFFF_FFFF_FFFF,
        ;
        let z: u128 = (self.0 as u128) * (rhs.0 as u128);
        proof {
            lemma_mul_mod_reduce(self.0 as int, rhs.0 as int);
        }
        BaseElement(mod_reduce(z))
    }

    fn double(self) -> (r: Self) {
        self.add(self)
    }

    fn square(self) -> (r: Self) {
        self.mul(self)
    }

    /// Computes `self^(M - 2)` with 72 multiplications, building the
    /// exponent `2^64 - 2^32 - 1` from runs of ones in its binary form.
    #[verifier::rlimit(40)]
    fn inv(self) -> (r: Self) {
        let ghost a = self.value();
        proof {
            lemma2_to64();
            lemma_pow1(a);
            lemma_pow_mod_adds(a, 1, 1);
            lemma_pow_mod_adds(a, 2, 1);
            lemma_pow_mod_adds(a, 3, 3);
            lemma_pow_mod_adds(a, 6, 1);
        }
        // exponent 0b11
        let t2: BaseElement = self.square().mul(self);
        // exponent 0b111
        let t3: BaseElement = t2.square().mul(self);
        proof {
            lemma_exp_acc(a, 7, 7, 3);
            lemma_exp_acc(a, 63, 63, 6);
            lemma_exp_acc(a, 4095, 4095, 12);
            lemma_exp_acc(a, 0xFF_FFFF, 63, 6);
        }
        // exponents of 6, 12, 24 and 30 ones
        let t6: BaseElement = exp_acc(t3, t3, 3);
        let t12: BaseElement = exp_acc(t6, t6, 6);
        let t24: BaseElement = exp_acc(t12, t12, 12);
        let t30: BaseElement = exp_acc(t24, t6, 6);
        proof {
            lemma_pow_mod_adds(a, 0x3FFF_FFFF, 0x3FFF_FFFF);
            lemma_pow_mod_adds(a, 0x7FFF_FFFE, 1);
            lemma_exp_acc(a, 0x7FFF_FFFF, 0x7FFF_FFFF, 32);
            lemma_pow_mod_adds(a, 0x7FFF_FFFF_7FFF_FFFF, 0x7FFF_FFFF_7FFF_FFFF);
            lemma_pow_mod_adds(a, 0xFFFF_FFFE_FFFF_FFFE, 1);
        }
        // exponent of 31 ones
        let t31: BaseElement = t30.square().mul(self);
        // exponent of 31 ones, a zero and 31 ones
        let t63: BaseElement = exp_acc(t31, t31, 32);
        // exponent of 31 ones, a zero and 32 ones
        t63.square().mul(self)
    }

    fn conjugate(self) -> (r: Self) {
        self
    }

    fn equals(&self, other: &Self) -> (r: bool) {
        self.as_int() == other.as_int()
    }
}

impl PartialEq for BaseElement {
    fn eq(&self, other: &BaseElement) -> (r: bool) {
        self.equals(other)
    }
}

/// Two elements are equal when they denote the same value.
impl PartialEqSpecImpl for BaseElement {
    open spec fn obeys_eq_spec() -> bool {
        true
    }

    open spec fn eq_spec(&self, other: &BaseElement) -> bool {
        self.value() == other.value()
    }
}

impl Eq for BaseElement {

}

impl From<u128> for BaseElement {
    /// Reduces a 128-bit integer modulo the field modulus.
    fn from(v: u128) -> (r: BaseElement) {
        let w: u64 = mod_reduce(v);
        BaseElement(
            if w >= M {
                w - M
            } else {
                w
            },
        )
    }
}

impl FromSpecImpl<u128> for BaseElement {
    open spec fn obeys_from_spec() -> bool {
        true
    }

    open spec fn from_spec(v: u128) -> BaseElement {
        BaseElement((v as int % modulus()) as u64)
    }
}

impl From<u64> for BaseElement {
    /// Reduces a 64-bit integer modulo the field modulus.
    fn from(v: u64) -> (r: BaseElement) {
        BaseElement::new(v)
    }
}

impl FromSpecImpl<u64> for BaseElement {
    open spec fn obeys_from_spec() -> bool {
        true
    }

    open spec fn from_spec(v: u64) -> BaseElement {
        BaseElement((v as int % modulus()) as u64)
    }
}

impl From<u32> for BaseElement {
    fn from(v: u32) -> (r: BaseElement) {
        BaseElement(v as u64)
    }
}

impl FromSpecImpl<u32> for BaseElement {
    open spec fn obeys_from_spec() -> bool {
        true
    }

    open spec fn from_spec(v: u32) -> BaseElement {
        BaseElement(v as u64)
    }
}

impl From<u16> for BaseElement {
    fn from(v: u16) -> (r: BaseElement) {
        BaseElement(v as u64)
    }
}

impl FromSpecImpl<u16> for BaseElement {
    open spec fn obeys_from_spec() -> bool {
        true
    }

    open spec fn from_spec(v: u16) -> BaseElement {
        BaseElement(v as u64)
    }
}

impl From<u8> for BaseElement {
    fn from(v: u8) -> (r: BaseElement) {
        BaseElement(v as u64)
    }
}

impl FromSpecImpl<u8> for BaseElement {
    open spec fn obeys_from_spec() -> bool {
        true
    }

    open spec fn from_spec(v: u8) -> BaseElement {
        BaseElement(v as u64)
    }
}

} // verus!
