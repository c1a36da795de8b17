//! The capability set shared by the base field and its extensions.

use vstd::prelude::*;

verus! {

/// An element of a finite field.
///
/// An element may be stored in more than one way; `value` gives the
/// mathematical value that it denotes, and every operation is specified by
/// what it does to values.
pub trait FieldElement: Copy + Sized {
    /// The mathematical values of the field.
    type Value;

    /// The value that this element denotes.
    spec fn value(&self) -> Self::Value;

    /// The additive identity.
    spec fn zero_value() -> Self::Value;

    /// The multiplicative identity.
    spec fn one_value() -> Self::Value;

    /// Field addition.
    spec fn add_values(a: Self::Value, b: Self::Value) -> Self::Value;

    /// Field subtraction.
    spec fn sub_values(a: Self::Value, b: Self::Value) -> Self::Value;

    /// Additive inverse.
    spec fn neg_value(a: Self::Value) -> Self::Value;

    /// Field multiplication.
    spec fn mul_values(a: Self::Value, b: Self::Value) -> Self::Value;

    /// Multiplicative inverse, with the inverse of zero defined as zero.
    spec fn inv_value(a: Self::Value) -> Self::Value;

    /// Image under the field's conjugation.
    spec fn conjugate_value(a: Self::Value) -> Self::Value;

    /// Whether `v` is a value of the field, in the form in which `value`
    /// and the operations give it.
    spec fn is_canonical(v: Self::Value) -> bool;

    /// The value of an element is canonical.
    proof fn lemma_value_is_canonical(x: Self)
        ensures
            Self::is_canonical(x.value()),
    ;

    /// Multiplication yields canonical values, is associative, and has
    /// `one_value` as its identity on canonical values.
    proof fn lemma_mul_values(a: Self::Value, b: Self::Value, c: Self::Value)
        ensures
            Self::is_canonical(Self::one_value()),
            Self::is_canonical(Self::mul_values(a, b)),
            Self::mul_values(Self::mul_values(a, b), c) == Self::mul_values(
                a,
                Self::mul_values(b, c),
            ),
            Self::is_canonical(a) ==> Self::mul_values(a, Self::one_value()) == a
                && Self::mul_values(Self::one_value(), a) == a,
    ;

    /// An element multiplied by its inverse is one, except that it is zero
    /// for zero.
    proof fn lemma_inverse(x: Self)
        ensures
            x.value() != Self::zero_value() ==> Self::mul_values(
                x.value(),
                Self::inv_value(x.value()),
            ) == Self::one_value(),
            x.value() == Self::zero_value() ==> Self::mul_values(
                x.value(),
                Self::inv_value(x.value()),
            ) == Self::zero_value(),
    ;

    /// Returns the additive identity.
    fn zero() -> (r: Self)
        ensures
            r.value() == Self::zero_value(),
    ;

    /// Returns the multiplicative identity.
    fn one() -> (r: Self)
        ensures
            r.value() == Self::one_value(),
    ;

    /// Returns `self + rhs`.
    fn add(self, rhs: Self) -> (r: Self)
        ensures
            r.value() == Self::add_values(self.value(), rhs.value()),
    ;

    /// Returns `self - rhs`.
    fn sub(self, rhs: Self) -> (r: Self)
        ensures
            r.value() == Self::sub_values(self.value(), rhs.value()),
    ;

    /// Returns `-self`.
    fn neg(self) -> (r: Self)
        ensures
            r.value() == Self::neg_value(self.value()),
    ;

    /// Returns `self * rhs`.
    fn mul(self, rhs: Self) -> (r: Self)
        ensures
            r.value() == Self::mul_values(self.value(), rhs.value()),
    ;

    /// Returns `self + self`.
    fn double(self) -> (r: Self)
        ensures
            r.value() == Self::add_values(self.value(), self.value()),
    ;

    /// Returns `self * self`.
    fn square(self) -> (r: Self)
        ensures
            r.value() == Self::mul_values(self.value(), self.value()),
    ;

    /// Returns the multiplicative inverse of `self`, and zero for zero.
    fn inv(self) -> (r: Self)
        ensures
            r.value() == Self::inv_value(self.value()),
    ;

    /// Returns the conjugate of `self`.
    fn conjugate(self) -> (r: Self)
        ensures
            r.value() == Self::conjugate_value(self.value()),
    ;

    /// Tells whether two elements denote the same value.
    fn equals(&self, other: &Self) -> (r: bool)
        ensures
            r == (self.value() == other.value()),
    ;
}

/// `base` raised to the power `e`: the product of `e` factors `base`, and
/// one for `e = 0`.
pub open spec fn pow_value<E: FieldElement>(base: E::Value, e: nat) -> E::Value
    decreases e,
{
    if e == 0 {
        E::one_value()
    } else {
        E::mul_values(base, pow_value::<E>(base, (e - 1) as nat))
    }
}

/// Every power is a canonical value.
pub proof fn lemma_pow_value_is_canonical<E: FieldElement>(base: E::Value, e: nat)
    ensures
        E::is_canonical(pow_value::<E>(base, e)),
{
    E::lemma_mul_values(base, pow_value::<E>(base, (e - 1) as nat), base);
}

/// Squaring the base doubles the exponent.
pub proof fn lemma_pow_value_of_square<E: FieldElement>(base: E::Value, e: nat)
    ensures
        pow_value::<E>(E::mul_values(base, base), e) == pow_value::<E>(base, 2 * e),
    decreases e,
{
    if e > 0 {
        let d = (e - 1) as nat;
        lemma_pow_value_of_square::<E>(base, d);
        let rest = pow_value::<E>(base, 2 * d);
        assert(pow_value::<E>(base, 2 * d + 1) == E::mul_values(base, rest));
        assert(pow_value::<E>(base, 2 * e) == E::mul_values(base, E::mul_values(base, rest)));
        E::lemma_mul_values(base, base, rest);
    }
}

/// Returns `base` raised to `power`, by squaring and multiplying over the
/// bits of `power`. The zeroth power of every element, zero included, is one.
pub fn exp<E: FieldElement>(base: E, power: u64) -> (r: E)
    ensures
        r.value() == pow_value::<E>(base.value(), power as nat),
{
    let mut r: E = E::one();
    let mut b: E = base;
    let mut p: u64 = power;
    proof {
        lemma_pow_value_is_canonical::<E>(base.value(), power as nat);
        E::lemma_mul_values(pow_value::<E>(base.value(), power as nat), r.value(), r.value());
    }
    while p > 0
        invariant
            E::mul_values(r.value(), pow_value::<E>(b.value(), p as nat)) == pow_value::<E>(
                base.value(),
                power as nat,
            ),
        decreases p,
    {
        let ghost r0 = r.value();
        let ghost b0 = b.value();
        let ghost q = (p / 2) as nat;
        if p % 2 == 1 {
            r = r.mul(b);
        }
        b = b.square();
        proof {
            lemma_pow_value_of_square::<E>(b0, q);
            if p % 2 == 1 {
                assert(pow_value::<E>(b0, p as nat) == E::mul_values(
                    b0,
                    pow_value::<E>(b0, 2 * q),
                ));
                E::lemma_mul_values(r0, b0, pow_value::<E>(b0, 2 * q));
            }
        }
        p = p / 2;
    }
    proof {
        E::lemma_value_is_canonical(r);
        E::lemma_mul_values(r.value(), r.value(), r.value());
    }
    r
}

} // verus!
