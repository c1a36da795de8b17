//! The quadratic extension of the base field, defined by `x^2 = x - 2`.

use crate::base::BaseElement;
use crate::modular::{
    add_mod, inv_mod, lemma_add_congruent, lemma_combine_congruent, lemma_mul_congruent,
    lemma_mul_mod_reduce, lemma_residue_congruent, lemma_sub_congruent, modulus, mul_mod,
    neg_mod, sub_mod,
};
use crate::traits::{exp, pow_value, FieldElement};
use crate::fermat::{lemma_inverse, lemma_minus_seven_is_no_square, lemma_no_zero_divisors};
use vstd::arithmetic::mul::{lemma_mul_is_associative, lemma_mul_is_commutative};
use vstd::prelude::*;
use vstd::std_specs::cmp::PartialEqSpecImpl;

verus! {

/// An element `a0 + a1 * x` of the quadratic extension, where `x` is a root
/// of the irreducible polynomial `x^2 - x + 2`.
#[derive(Copy, Clone, Debug, Default)]
pub struct QuadExtension(pub BaseElement, pub BaseElement);

/// A value of the quadratic extension: the canonical integers of its two
/// coordinates.
pub type QuadValue = (int, int);

/// Coordinate-wise sum.
pub open spec fn quad_add(a: QuadValue, b: QuadValue) -> QuadValue {
    (add_mod(a.0, b.0), add_mod(a.1, b.1))
}

/// Coordinate-wise difference.
pub open spec fn quad_sub(a: QuadValue, b: QuadValue) -> QuadValue {
    (sub_mod(a.0, b.0), sub_mod(a.1, b.1))
}

/// Coordinate-wise additive inverse.
pub open spec fn quad_neg(a: QuadValue) -> QuadValue {
    (neg_mod(a.0), neg_mod(a.1))
}

/// Product of `a0 + a1 x` and `b0 + b1 x` as polynomials with integer
/// coefficients, with `x^2` replaced by `x - 2`.
pub open spec fn quad_product(a: QuadValue, b: QuadValue) -> QuadValue {
    (a.0 * b.0 - 2 * (a.1 * b.1), a.0 * b.1 + a.1 * b.0 + a.1 * b.1)
}

/// The residues of both coordinates.
pub open spec fn quad_reduce(a: QuadValue) -> QuadValue {
    (a.0 % modulus(), a.1 % modulus())
}

/// Product in the quadratic extension.
pub open spec fn quad_mul(a: QuadValue, b: QuadValue) -> QuadValue {
    quad_reduce(quad_product(a, b))
}

/// Image under the automorphism that sends `x` to the other root, `1 - x`.
pub open spec fn quad_conjugate(a: QuadValue) -> QuadValue {
    (add_mod(a.0, a.1), neg_mod(a.1))
}

/// The norm of `a`: the product of `a` and its conjugate, which lies in the
/// base field.
pub open spec fn quad_norm(a: QuadValue) -> int {
    quad_mul(a, quad_conjugate(a)).0
}

/// The conjugate of `a` scaled by the inverse of the norm of `a`; zero for
/// zero.
pub open spec fn quad_inv(a: QuadValue) -> QuadValue {
    let n = quad_conjugate(a);
    let d = inv_mod(quad_norm(a));
    (mul_mod(n.0, d), mul_mod(n.1, d))
}

/// The integer product is associative.
#[verifier::rlimit(40)]
pub proof fn lemma_quad_product_assoc(a: QuadValue, b: QuadValue, c: QuadValue)
    ensures
        quad_product(quad_product(a, b), c) == quad_product(a, quad_product(b, c)),
{
    let p = quad_product(a, b);
    let q = quad_product(b, c);
    assert(p.0 * c.0 == (a.0 * b.0) * c.0 - 2 * ((a.1 * b.1) * c.0)) by (nonlinear_arith)
        requires
            p.0 == a.0 * b.0 - 2 * (a.1 * b.1),
    ;
    assert(p.0 * c.1 == (a.0 * b.0) * c.1 - 2 * ((a.1 * b.1) * c.1)) by (nonlinear_arith)
        requires
            p.0 == a.0 * b.0 - 2 * (a.1 * b.1),
    ;
    assert(p.1 * c.0 == (a.0 * b.1) * c.0 + (a.1 * b.0) * c.0 + (a.1 * b.1) * c.0)
        by (nonlinear_arith)
        requires
            p.1 == a.0 * b.1 + a.1 * b.0 + a.1 * b.1,
    ;
    assert(p.1 * c.1 == (a.0 * b.1) * c.1 + (a.1 * b.0) * c.1 + (a.1 * b.1) * c.1)
        by (nonlinear_arith)
        requires
            p.1 == a.0 * b.1 + a.1 * b.0 + a.1 * b.1,
    ;
    assert(a.0 * q.0 == a.0 * (b.0 * c.0) - 2 * (a.0 * (b.1 * c.1))) by (nonlinear_arith)
        requires
            q.0 == b.0 * c.0 - 2 * (b.1 * c.1),
    ;
    assert(a.1 * q.0 == a.1 * (b.0 * c.0) - 2 * (a.1 * (b.1 * c.1))) by (nonlinear_arith)
        requires
            q.0 == b.0 * c.0 - 2 * (b.1 * c.1),
    ;
    assert(a.0 * q.1 == a.0 * (b.0 * c.1) + a.0 * (b.1 * c.0) + a.0 * (b.1 * c.1))
        by (nonlinear_arith)
        requires
            q.1 == b.0 * c.1 + b.1 * c.0 + b.1 * c.1,
    ;
    assert(a.1 * q.1 == a.1 * (b.0 * c.1) + a.1 * (b.1 * c.0) + a.1 * (b.1 * c.1))
        by (nonlinear_arith)
        requires
            q.1 == b.0 * c.1 + b.1 * c.0 + b.1 * c.1,
    ;
    lemma_mul_is_associative(a.0, b.0, c.0);
    lemma_mul_is_associative(a.0, b.0, c.1);
    lemma_mul_is_associative(a.0, b.1, c.0);
    lemma_mul_is_associative(a.0, b.1, c.1);
    lemma_mul_is_associative(a.1, b.0, c.0);
    lemma_mul_is_associative(a.1, b.0, c.1);
    lemma_mul_is_associative(a.1, b.1, c.0);
    lemma_mul_is_associative(a.1, b.1, c.1);
}

/// Factors may be replaced by congruent ones without changing the product
/// in the extension.
pub proof fn lemma_quad_mul_congruent(a: QuadValue, b: QuadValue, c: QuadValue, d: QuadValue)
    requires
        quad_reduce(a) == quad_reduce(c),
        quad_reduce(b) == quad_reduce(d),
    ensures
        quad_mul(a, b) == quad_mul(c, d),
{
    lemma_mul_congruent(a.0, b.0, c.0, d.0);
    lemma_mul_congruent(a.0, b.1, c.0, d.1);
    lemma_mul_congruent(a.1, b.0, c.1, d.0);
    lemma_mul_congruent(a.1, b.1, c.1, d.1);
    lemma_combine_congruent(a.0 * b.0, c.0 * d.0, -2, a.1 * b.1, c.1 * d.1);
    lemma_add_congruent(a.0 * b.1, a.1 * b.0, c.0 * d.1, c.1 * d.0);
    lemma_add_congruent(a.0 * b.1 + a.1 * b.0, a.1 * b.1, c.0 * d.1 + c.1 * d.0, c.1 * d.1);
}

/// One is the identity of the integer product, and of the product in the
/// extension on canonical values.
pub proof fn lemma_quad_mul_one(a: QuadValue)
    ensures
        quad_product(a, (1int, 0int)) == a,
        quad_product((1int, 0int), a) == a,
        0 <= a.0 < modulus() && 0 <= a.1 < modulus() ==> quad_mul(a, (1int, 0int)) == a
            && quad_mul((1int, 0int), a) == a,
{
    assert(a.0 * 1 == a.0 && a.1 * 0 == 0 && a.0 * 0 == 0 && a.1 * 1 == a.1);
    assert(1 * a.0 == a.0 && 0 * a.1 == 0 && 1 * a.1 == a.1 && 0 * a.0 == 0);
    assert(quad_product(a, (1int, 0int)) == a);
    assert(quad_product((1int, 0int), a) == a);
}

/// Multiplication in the quadratic extension is associative.
pub proof fn lemma_quad_mul_assoc(a: QuadValue, b: QuadValue, c: QuadValue)
    ensures
        quad_mul(quad_mul(a, b), c) == quad_mul(a, quad_mul(b, c)),
{
    let p = quad_product(a, b);
    let q = quad_product(b, c);
    lemma_residue_congruent(p.0);
    lemma_residue_congruent(p.1);
    lemma_residue_congruent(q.0);
    lemma_residue_congruent(q.1);
    lemma_quad_mul_congruent(quad_reduce(p), c, p, c);
    lemma_quad_mul_congruent(a, quad_reduce(q), a, q);
    lemma_quad_product_assoc(a, b, c);
}

/// The product of an element and its conjugate has no part outside the base
/// field, and its base part is `a0^2 + a0 a1 + 2 a1^2`.
pub proof fn lemma_quad_norm(a: QuadValue)
    ensures
        quad_mul(a, quad_conjugate(a)).1 == 0,
        quad_norm(a) == (a.0 * a.0 + a.0 * a.1 + 2 * (a.1 * a.1)) % modulus(),
{
    let n = (a.0 + a.1, -a.1);
    lemma_residue_congruent(a.0 + a.1);
    lemma_residue_congruent(-a.1);
    lemma_quad_mul_congruent(a, quad_conjugate(a), a, n);
    assert(a.0 * (a.0 + a.1) == a.0 * a.0 + a.0 * a.1) by (nonlinear_arith);
    assert(a.1 * (a.0 + a.1) == a.0 * a.1 + a.1 * a.1) by (nonlinear_arith);
    assert(a.0 * (-a.1) == -(a.0 * a.1)) by (nonlinear_arith);
    assert(a.1 * (-a.1) == -(a.1 * a.1)) by (nonlinear_arith);
}

/// Scaling the second factor by a base field value scales the product.
pub proof fn lemma_quad_mul_scaled(a: QuadValue, n: QuadValue, d: int)
    ensures
        quad_mul(a, (mul_mod(n.0, d), mul_mod(n.1, d))) == (
            mul_mod(quad_mul(a, n).0, d),
            mul_mod(quad_mul(a, n).1, d),
        ),
{
    let scaled = (n.0 * d, n.1 * d);
    let p = quad_product(a, n);
    lemma_residue_congruent(n.0 * d);
    lemma_residue_congruent(n.1 * d);
    lemma_quad_mul_congruent(a, (mul_mod(n.0, d), mul_mod(n.1, d)), a, scaled);
    lemma_mul_is_associative(a.0, n.0, d);
    lemma_mul_is_associative(a.0, n.1, d);
    lemma_mul_is_associative(a.1, n.0, d);
    lemma_mul_is_associative(a.1, n.1, d);
    assert(p.0 * d == (a.0 * n.0) * d - 2 * ((a.1 * n.1) * d)) by (nonlinear_arith)
        requires
            p.0 == a.0 * n.0 - 2 * (a.1 * n.1),
    ;
    assert(p.1 * d == (a.0 * n.1) * d + (a.1 * n.0) * d + (a.1 * n.1) * d) by (nonlinear_arith)
        requires
            p.1 == a.0 * n.1 + a.1 * n.0 + a.1 * n.1,
    ;
    lemma_mul_mod_reduce(p.0, d);
    lemma_mul_mod_reduce(p.1, d);
}

/// The norm of an element other than zero is not zero: otherwise `-7` would
/// be a square in the base field.
#[verifier::rlimit(40)]
pub proof fn lemma_quad_norm_is_nonzero(a: QuadValue)
    requires
        0 <= a.0 < modulus(),
        0 <= a.1 < modulus(),
        a != (0int, 0int),
    ensures
        quad_norm(a) != 0,
{
    lemma_quad_norm(a);
    let form = a.0 * a.0 + a.0 * a.1 + 2 * (a.1 * a.1);
    if quad_norm(a) == 0 {
        if a.1 == 0 {
            assert(a.0 * 0 == 0 && 0 * 0 == 0);
            lemma_no_zero_divisors(a.0, a.0);
        } else {
            let u = inv_mod(a.1);
            let s = 2 * a.0 + a.1;
            let t = s * u;
            lemma_inverse(a.1);
            assert(s * s == 4 * form - 7 * (a.1 * a.1)) by (nonlinear_arith)
                requires
                    s == 2 * a.0 + a.1,
                    form == a.0 * a.0 + a.0 * a.1 + 2 * (a.1 * a.1),
            ;
            // s^2 is congruent to -7 a1^2
            lemma_combine_congruent(-7 * (a.1 * a.1), -7 * (a.1 * a.1), 4, form, 0);
            // (a1 u)^2 is congruent to 1
            lemma_residue_congruent(a.1 * u);
            lemma_mul_congruent(a.1 * u, a.1 * u, 1, 1);
            lemma_square_of_product(a.1, u);
            lemma_square_of_product(s, u);
            // t^2 = s^2 u^2 is congruent to -7 a1^2 u^2
            lemma_mul_congruent(s * s, u * u, -7 * (a.1 * a.1), u * u);
            lemma_mul_is_associative(-7, a.1 * a.1, u * u);
            lemma_mul_congruent(-7, (a.1 * a.1) * (u * u), -7, 1);
            lemma_minus_seven_is_no_square(t);
        }
    }
}

/// The square of a product is the product of the squares.
proof fn lemma_square_of_product(x: int, y: int)
    ensures
        (x * y) * (x * y) == (x * x) * (y * y),
{
    lemma_mul_is_associative(x * y, x, y);
    lemma_mul_is_associative(x, y, x);
    lemma_mul_is_commutative(y, x);
    lemma_mul_is_associative(x, x, y);
    lemma_mul_is_associative(x * x, y, y);
}

/// An element multiplied by its inverse is one, except that it is zero for
/// zero.
pub proof fn lemma_quad_inverse(v: QuadValue)
    requires
        0 <= v.0 < modulus(),
        0 <= v.1 < modulus(),
    ensures
        v != (0int, 0int) ==> quad_mul(v, quad_inv(v)) == (1int, 0int),
        v == (0int, 0int) ==> quad_mul(v, quad_inv(v)) == (0int, 0int),
{
    let n = quad_conjugate(v);
    let d = inv_mod(quad_norm(v));
    lemma_quad_mul_scaled(v, n, d);
    lemma_quad_norm(v);
    assert(0 * d == 0);
    if v != (0int, 0int) {
        lemma_quad_norm_is_nonzero(v);
        lemma_inverse(quad_norm(v));
    } else {
        assert(0 * 0 == 0);
        lemma_inverse(quad_norm(v));
    }
}

impl QuadExtension {
    /// Returns the element `a0 + a1 * x`.
    pub fn new(a0: BaseElement, a1: BaseElement) -> (r: QuadExtension)
        ensures
            r == QuadExtension(a0, a1),
    {
        QuadExtension(a0, a1)
    }

    /// Returns `self` raised to `power`; the zeroth power of every element is one.
    pub fn exp(self, power: u64) -> (r: QuadExtension)
        ensures
            r.value() == pow_value::<QuadExtension>(self.value(), power as nat),
    {
        exp(self, power)
    }

    /// Returns the product of `self` and the base field element `b`.
    pub fn mul_base(self, b: BaseElement) -> (r: QuadExtension)
        ensures
            r.value() == (mul_mod(self.value().0, b.value()), mul_mod(self.value().1, b.value())),
    {
        QuadExtension(self.0.mul(b), self.1.mul(b))
    }
}

impl FieldElement for QuadExtension {
    type Value = QuadValue;

    open spec fn value(&self) -> QuadValue {
        (self.0.value(), self.1.value())
    }

    open spec fn zero_value() -> QuadValue {
        (0, 0)
    }

    open spec fn one_value() -> QuadValue {
        (1, 0)
    }

    open spec fn add_values(a: QuadValue, b: QuadValue) -> QuadValue {
        quad_add(a, b)
    }

    open spec fn sub_values(a: QuadValue, b: QuadValue) -> QuadValue {
        quad_sub(a, b)
    }

    open spec fn neg_value(a: QuadValue) -> QuadValue {
        quad_neg(a)
    }

    open spec fn mul_values(a: QuadValue, b: QuadValue) -> QuadValue {
        quad_mul(a, b)
    }

    open spec fn inv_value(a: QuadValue) -> QuadValue {
        quad_inv(a)
    }

    open spec fn conjugate_value(a: QuadValue) -> QuadValue {
        quad_conjugate(a)
    }

    open spec fn is_canonical(v: QuadValue) -> bool {
        0 <= v.0 < modulus() && 0 <= v.1 < modulus()
    }

    proof fn lemma_value_is_canonical(x: QuadExtension) {
    }

    proof fn lemma_mul_values(a: QuadValue, b: QuadValue, c: QuadValue) {
        lemma_quad_mul_assoc(a, b, c);
        lemma_quad_mul_one(a);
    }

    proof fn lemma_inverse(x: QuadExtension) {
        lemma_quad_inverse(x.value());
    }

    fn zero() -> (r: Self)
        ensures
            r == QuadExtension(BaseElement(0), BaseElement(0)),
    {
        QuadExtension(BaseElement(0), BaseElement(0))
    }

    fn one() -> (r: Self)
        ensures
            r == QuadExtension(BaseElement(1), BaseElement(0)),
    {
        QuadExtension(BaseElement(1), BaseElement(0))
    }

    fn add(self, rhs: Self) -> (r: Self) {
        QuadExtension(self.0.add(rhs.0), self.1.add(rhs.1))
    }

    fn sub(self, rhs: Self) -> (r: Self) {
        QuadExtension(self.0.sub(rhs.0), self.1.sub(rhs.1))
    }

    fn neg(self) -> (r: Self)
        ensures
            r.0.0 == neg_mod(self.0.value()),
            r.1.0 == neg_mod(self.1.value()),
    {
        QuadExtension(self.0.neg(), self.1.neg())
    }

    /// Three multiplications in the base field: the mixed terms come from
    /// `(a0 + a1) * (b0 + b1) - a0 * b0`.
    fn mul(self, rhs: Self) -> (r: Self) {
        let a0b0: BaseElement = self.0.mul(rhs.0);
        let a1b1: BaseElement = self.1.mul(rhs.1);
        let c0: BaseElement = a0b0.sub(a1b1.double());
        let c1: BaseElement = self.0.add(self.1).mul(rhs.0.add(rhs.1)).sub(a0b0);
        proof {
            let x0 = self.0.value();
            let x1 = self.1.value();
            let y0 = rhs.0.value();
            let y1 = rhs.1.value();
            lemma_residue_congruent(x0 * y0);
            lemma_residue_congruent(x1 * y1);
            lemma_add_congruent(a1b1.value(), a1b1.value(), x1 * y1, x1 * y1);
            lemma_residue_congruent(x1 * y1 + x1 * y1);
            lemma_sub_congruent(
                a0b0.value(),
                add_mod(a1b1.value(), a1b1.value()),
                x0 * y0,
                2 * (x1 * y1),
            );
            lemma_residue_congruent(x0 + x1);
            lemma_residue_congruent(y0 + y1);
            lemma_mul_congruent(add_mod(x0, x1), add_mod(y0, y1), x0 + x1, y0 + y1);
            lemma_residue_congruent((x0 + x1) * (y0 + y1));
            lemma_sub_congruent(
                mul_mod(add_mod(x0, x1), add_mod(y0, y1)),
                a0b0.value(),
                (x0 + x1) * (y0 + y1),
                x0 * y0,
            );
            assert((x0 + x1) * (y0 + y1) == x0 * y0 + x0 * y1 + x1 * y0 + x1 * y1)
                by (nonlinear_arith);
        }
        QuadExtension(c0, c1)
    }

    fn double(self) -> (r: Self) {
        QuadExtension(self.0.double(), self.1.double())
    }

    fn square(self) -> (r: Self) {
        self.mul(self)
    }

    /// The conjugate divided by the norm; zero is returned for zero.
    fn inv(self) -> (r: Self) {
        if self.equals(&QuadExtension(BaseElement(0), BaseElement(0))) {
            assert(0 * inv_mod(quad_norm(self.value())) == 0);
            return self;
        }
        let numerator: QuadExtension = self.conjugate();
        let norm: BaseElement = self.mul(numerator).0;
        let denom_inv: BaseElement = norm.inv();
        QuadExtension(numerator.0.mul(denom_inv), numerator.1.mul(denom_inv))
    }

    fn conjugate(self) -> (r: Self) {
        QuadExtension(self.0.add(self.1), self.1.neg())
    }

    fn equals(&self, other: &Self) -> (r: bool) {
        self.0.equals(&other.0) && self.1.equals(&other.1)
    }
}

impl PartialEq for QuadExtension {
    fn eq(&self, other: &QuadExtension) -> (r: bool) {
        self.equals(other)
    }
}

/// Two elements are equal when they denote the same value.
impl PartialEqSpecImpl for QuadExtension {
    open spec fn obeys_eq_spec() -> bool {
        true
    }

    open spec fn eq_spec(&self, other: &QuadExtension) -> bool {
        self.value() == other.value()
    }
}

impl Eq for QuadExtension {

}

} // verus!
