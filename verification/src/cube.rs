//! The cubic extension of the base field, defined by `x^3 = x + 1`.

use crate::base::BaseElement;
use crate::cube_inverse::lemma_cube_inverse;
use crate::modular::{
    add_mod, congruent, inv_mod, lemma_add_congruent, lemma_mul_congruent, lemma_residue_congruent,
    lemma_sub_congruent, modulus, mul_mod, neg_mod, sub_mod, M,
};
use crate::traits::{exp, pow_value, FieldElement};
use vstd::arithmetic::mul::lemma_mul_is_associative;
use vstd::prelude::*;
use vstd::std_specs::cmp::PartialEqSpecImpl;

verus! {

/// An element `a0 + a1 * x + a2 * x^2` of the cubic extension, where `x` is a
/// root of the irreducible polynomial `x^3 - x - 1`.
#[derive(Copy, Clone, Debug, Default)]
pub struct CubeExtension(pub BaseElement, pub BaseElement, pub BaseElement);

/// A value of the cubic extension: the canonical integers of its three
/// coordinates.
pub type CubeValue = (int, int, int);

/// First coordinate of the image of `x` under the Frobenius map.
pub const FROBENIUS_X_0: u64 = 10615703402128488253;

/// Second coordinate of the image of `x` under the Frobenius map.
pub const FROBENIUS_X_1: u64 = 10050274602728160328;

/// Third coordinate of the image of `x` under the Frobenius map.
pub const FROBENIUS_X_2: u64 = 11746561000929144102;

/// First coordinate of the image of `x^2` under the Frobenius map.
pub const FROBENIUS_X2_0: u64 = 6700183068485440220;

/// Second coordinate of the image of `x^2` under the Frobenius map.
pub const FROBENIUS_X2_1: u64 = 14531223735771536287;

/// Third coordinate of the image of `x^2` under the Frobenius map.
pub const FROBENIUS_X2_2: u64 = 8396469466686423992;

/// Coordinate-wise sum.
pub open spec fn cube_add(a: CubeValue, b: CubeValue) -> CubeValue {
    (add_mod(a.0, b.0), add_mod(a.1, b.1), add_mod(a.2, b.2))
}

/// Coordinate-wise difference.
pub open spec fn cube_sub(a: CubeValue, b: CubeValue) -> CubeValue {
    (sub_mod(a.0, b.0), sub_mod(a.1, b.1), sub_mod(a.2, b.2))
}

/// Coordinate-wise additive inverse.
pub open spec fn cube_neg(a: CubeValue) -> CubeValue {
    (neg_mod(a.0), neg_mod(a.1), neg_mod(a.2))
}

/// Product of two polynomials of degree two with integer coefficients, with
/// `x^3` replaced by `x + 1` and `x^4` by `x^2 + x`.
pub open spec fn cube_product(a: CubeValue, b: CubeValue) -> CubeValue {
    (
        a.0 * b.0 + a.1 * b.2 + a.2 * b.1,
        a.0 * b.1 + a.1 * b.0 + a.1 * b.2 + a.2 * b.1 + a.2 * b.2,
        a.0 * b.2 + a.1 * b.1 + a.2 * b.0 + a.2 * b.2,
    )
}

/// The residues of the three coordinates.
pub open spec fn cube_reduce(a: CubeValue) -> CubeValue {
    (a.0 % modulus(), a.1 % modulus(), a.2 % modulus())
}

/// Product in the cubic extension.
pub open spec fn cube_mul(a: CubeValue, b: CubeValue) -> CubeValue {
    cube_reduce(cube_product(a, b))
}

/// Each coordinate multiplied by the base field value `k`.
pub open spec fn cube_scale(a: CubeValue, k: int) -> CubeValue {
    (mul_mod(a.0, k), mul_mod(a.1, k), mul_mod(a.2, k))
}

/// Image under the Frobenius map, which raises to the power of the modulus:
/// it fixes the base field and sends `x` and `x^2` to fixed elements.
pub open spec fn cube_conjugate(a: CubeValue) -> CubeValue {
    (
        (a.0 + FROBENIUS_X_0 * a.1 + FROBENIUS_X2_0 * a.2) % modulus(),
        (FROBENIUS_X_1 * a.1 + FROBENIUS_X2_1 * a.2) % modulus(),
        (FROBENIUS_X_2 * a.1 + FROBENIUS_X2_2 * a.2) % modulus(),
    )
}

/// The adjugate of `a` with integer coefficients: the first column of the
/// adjugate of the matrix of multiplication by `a`.
pub open spec fn cube_adjugate_integers(a: CubeValue) -> CubeValue {
    (
        a.0 * a.0 + 2 * (a.0 * a.2) + a.2 * a.2 - a.1 * a.1 - a.1 * a.2,
        a.2 * a.2 - a.0 * a.1,
        a.1 * a.1 - a.0 * a.2 - a.2 * a.2,
    )
}

/// The element that `a` is multiplied by to give its norm.
pub open spec fn cube_adjugate(a: CubeValue) -> CubeValue {
    cube_reduce(cube_adjugate_integers(a))
}

/// The norm of `a`: the product of `a` and its adjugate, which lies in the
/// base field.
pub open spec fn cube_norm(a: CubeValue) -> int {
    cube_mul(a, cube_adjugate(a)).0
}

/// The adjugate of `a` scaled by the inverse of the norm of `a`; zero for
/// zero.
pub open spec fn cube_inv(a: CubeValue) -> CubeValue {
    cube_scale(cube_adjugate(a), inv_mod(cube_norm(a)))
}

/// The norm of `a` before reduction: the first coordinate of the integer
/// product of `a` and its adjugate.
pub open spec fn cube_norm_integer(a: CubeValue) -> int {
    cube_product(a, cube_adjugate_integers(a)).0
}

/// The value at `r` of the polynomial with coefficients `p`.
pub open spec fn cube_at(p: CubeValue, r: int) -> int {
    p.0 + p.1 * r + p.2 * (r * r)
}

/// The cubic that defines the extension, at `r`.
pub open spec fn cubic(r: int) -> int {
    r * (r * r) - r - 1
}

/// The form `n^3 - n d^2 - d^3`, which is `d^3` times the cubic at `n / d`.
pub open spec fn cubic_form(n: int, d: int) -> int {
    n * (n * n) - n * (d * d) - d * (d * d)
}

/// The integer product is associative.
#[verifier::rlimit(40)]
pub proof fn lemma_cube_product_assoc(a: CubeValue, b: CubeValue, c: CubeValue)
    ensures
        cube_product(cube_product(a, b), c) == cube_product(a, cube_product(b, c)),
{
    let p = cube_product(a, b);
    let q = cube_product(b, c);
    assert(p.0 * c.0 == (a.0 * b.0) * c.0 + (a.1 * b.2) * c.0 + (a.2 * b.1)
        * c.0) by (nonlinear_arith)
        requires
            p.0 == a.0 * b.0 + a.1 * b.2 + a.2 * b.1,
    ;
    assert(p.0 * c.1 == (a.0 * b.0) * c.1 + (a.1 * b.2) * c.1 + (a.2 * b.1)
        * c.1) by (nonlinear_arith)
        requires
            p.0 == a.0 * b.0 + a.1 * b.2 + a.2 * b.1,
    ;
    assert(p.0 * c.2 == (a.0 * b.0) * c.2 + (a.1 * b.2) * c.2 + (a.2 * b.1)
        * c.2) by (nonlinear_arith)
        requires
            p.0 == a.0 * b.0 + a.1 * b.2 + a.2 * b.1,
    ;
    assert(p.1 * c.0 == (a.0 * b.1) * c.0 + (a.1 * b.0) * c.0 + (a.1 * b.2) * c.0 + (a.2 * b.1)
        * c.0 + (a.2 * b.2) * c.0) by (nonlinear_arith)
        requires
            p.1 == a.0 * b.1 + a.1 * b.0 + a.1 * b.2 + a.2 * b.1 + a.2 * b.2,
    ;
    assert(p.1 * c.1 == (a.0 * b.1) * c.1 + (a.1 * b.0) * c.1 + (a.1 * b.2) * c.1 + (a.2 * b.1)
        * c.1 + (a.2 * b.2) * c.1) by (nonlinear_arith)
        requires
            p.1 == a.0 * b.1 + a.1 * b.0 + a.1 * b.2 + a.2 * b.1 + a.2 * b.2,
    ;
    assert(p.1 * c.2 == (a.0 * b.1) * c.2 + (a.1 * b.0) * c.2 + (a.1 * b.2) * c.2 + (a.2 * b.1)
        * c.2 + (a.2 * b.2) * c.2) by (nonlinear_arith)
        requires
            p.1 == a.0 * b.1 + a.1 * b.0 + a.1 * b.2 + a.2 * b.1 + a.2 * b.2,
    ;
    assert(p.2 * c.0 == (a.0 * b.2) * c.0 + (a.1 * b.1) * c.0 + (a.2 * b.0) * c.0 + (a.2 * b.2)
        * c.0) by (nonlinear_arith)
        requires
            p.2 == a.0 * b.2 + a.1 * b.1 + a.2 * b.0 + a.2 * b.2,
    ;
    assert(p.2 * c.1 == (a.0 * b.2) * c.1 + (a.1 * b.1) * c.1 + (a.2 * b.0) * c.1 + (a.2 * b.2)
        * c.1) by (nonlinear_arith)
        requires
            p.2 == a.0 * b.2 + a.1 * b.1 + a.2 * b.0 + a.2 * b.2,
    ;
    assert(p.2 * c.2 == (a.0 * b.2) * c.2 + (a.1 * b.1) * c.2 + (a.2 * b.0) * c.2 + (a.2 * b.2)
        * c.2) by (nonlinear_arith)
        requires
            p.2 == a.0 * b.2 + a.1 * b.1 + a.2 * b.0 + a.2 * b.2,
    ;
    assert(a.0 * q.0 == a.0 * (b.0 * c.0) + a.0 * (b.1 * c.2) + a.0
        * (b.2 * c.1)) by (nonlinear_arith)
        requires
            q.0 == b.0 * c.0 + b.1 * c.2 + b.2 * c.1,
    ;
    assert(a.0 * q.1 == a.0 * (b.0 * c.1) + a.0 * (b.1 * c.0) + a.0 * (b.1 * c.2) + a.0
        * (b.2 * c.1) + a.0 * (b.2 * c.2)) by (nonlinear_arith)
        requires
            q.1 == b.0 * c.1 + b.1 * c.0 + b.1 * c.2 + b.2 * c.1 + b.2 * c.2,
    ;
    assert(a.0 * q.2 == a.0 * (b.0 * c.2) + a.0 * (b.1 * c.1) + a.0 * (b.2 * c.0) + a.0
        * (b.2 * c.2)) by (nonlinear_arith)
        requires
            q.2 == b.0 * c.2 + b.1 * c.1 + b.2 * c.0 + b.2 * c.2,
    ;
    assert(a.1 * q.0 == a.1 * (b.0 * c.0) + a.1 * (b.1 * c.2) + a.1
        * (b.2 * c.1)) by (nonlinear_arith)
        requires
            q.0 == b.0 * c.0 + b.1 * c.2 + b.2 * c.1,
    ;
    assert(a.1 * q.1 == a.1 * (b.0 * c.1) + a.1 * (b.1 * c.0) + a.1 * (b.1 * c.2) + a.1
        * (b.2 * c.1) + a.1 * (b.2 * c.2)) by (nonlinear_arith)
        requires
            q.1 == b.0 * c.1 + b.1 * c.0 + b.1 * c.2 + b.2 * c.1 + b.2 * c.2,
    ;
    assert(a.1 * q.2 == a.1 * (b.0 * c.2) + a.1 * (b.1 * c.1) + a.1 * (b.2 * c.0) + a.1
        * (b.2 * c.2)) by (nonlinear_arith)
        requires
            q.2 == b.0 * c.2 + b.1 * c.1 + b.2 * c.0 + b.2 * c.2,
    ;
    assert(a.2 * q.0 == a.2 * (b.0 * c.0) + a.2 * (b.1 * c.2) + a.2
        * (b.2 * c.1)) by (nonlinear_arith)
        requires
            q.0 == b.0 * c.0 + b.1 * c.2 + b.2 * c.1,
    ;
    assert(a.2 * q.1 == a.2 * (b.0 * c.1) + a.2 * (b.1 * c.0) + a.2 * (b.1 * c.2) + a.2
        * (b.2 * c.1) + a.2 * (b.2 * c.2)) by (nonlinear_arith)
        requires
            q.1 == b.0 * c.1 + b.1 * c.0 + b.1 * c.2 + b.2 * c.1 + b.2 * c.2,
    ;
    assert(a.2 * q.2 == a.2 * (b.0 * c.2) + a.2 * (b.1 * c.1) + a.2 * (b.2 * c.0) + a.2
        * (b.2 * c.2)) by (nonlinear_arith)
        requires
            q.2 == b.0 * c.2 + b.1 * c.1 + b.2 * c.0 + b.2 * c.2,
    ;
    lemma_mul_is_associative(a.0, b.0, c.0);
    lemma_mul_is_associative(a.0, b.0, c.1);
    lemma_mul_is_associative(a.0, b.0, c.2);
    lemma_mul_is_associative(a.0, b.1, c.0);
    lemma_mul_is_associative(a.0, b.1, c.1);
    lemma_mul_is_associative(a.0, b.1, c.2);
    lemma_mul_is_associative(a.0, b.2, c.0);
    lemma_mul_is_associative(a.0, b.2, c.1);
    lemma_mul_is_associative(a.0, b.2, c.2);
    lemma_mul_is_associative(a.1, b.0, c.0);
    lemma_mul_is_associative(a.1, b.0, c.1);
    lemma_mul_is_associative(a.1, b.0, c.2);
    lemma_mul_is_associative(a.1, b.1, c.0);
    lemma_mul_is_associative(a.1, b.1, c.1);
    lemma_mul_is_associative(a.1, b.1, c.2);
    lemma_mul_is_associative(a.1, b.2, c.0);
    lemma_mul_is_associative(a.1, b.2, c.1);
    lemma_mul_is_associative(a.1, b.2, c.2);
    lemma_mul_is_associative(a.2, b.0, c.0);
    lemma_mul_is_associative(a.2, b.0, c.1);
    lemma_mul_is_associative(a.2, b.0, c.2);
    lemma_mul_is_associative(a.2, b.1, c.0);
    lemma_mul_is_associative(a.2, b.1, c.1);
    lemma_mul_is_associative(a.2, b.1, c.2);
    lemma_mul_is_associative(a.2, b.2, c.0);
    lemma_mul_is_associative(a.2, b.2, c.1);
    lemma_mul_is_associative(a.2, b.2, c.2);
}

/// Factors may be replaced by congruent ones without changing the product
/// in the extension.
#[verifier::rlimit(40)]
pub proof fn lemma_cube_mul_congruent(a: CubeValue, b: CubeValue, c: CubeValue, d: CubeValue)
    requires
        cube_reduce(a) == cube_reduce(c),
        cube_reduce(b) == cube_reduce(d),
    ensures
        cube_mul(a, b) == cube_mul(c, d),
{
    lemma_mul_congruent(a.0, b.0, c.0, d.0);
    lemma_mul_congruent(a.0, b.1, c.0, d.1);
    lemma_mul_congruent(a.0, b.2, c.0, d.2);
    lemma_mul_congruent(a.1, b.0, c.1, d.0);
    lemma_mul_congruent(a.1, b.1, c.1, d.1);
    lemma_mul_congruent(a.1, b.2, c.1, d.2);
    lemma_mul_congruent(a.2, b.0, c.2, d.0);
    lemma_mul_congruent(a.2, b.1, c.2, d.1);
    lemma_mul_congruent(a.2, b.2, c.2, d.2);
    lemma_add_congruent(a.0 * b.0, a.1 * b.2, c.0 * d.0, c.1 * d.2);
    lemma_add_congruent(a.0 * b.0 + a.1 * b.2, a.2 * b.1, c.0 * d.0 + c.1 * d.2, c.2 * d.1);
    lemma_add_congruent(a.0 * b.1, a.1 * b.0, c.0 * d.1, c.1 * d.0);
    lemma_add_congruent(a.0 * b.1 + a.1 * b.0, a.1 * b.2, c.0 * d.1 + c.1 * d.0, c.1 * d.2);
    lemma_add_congruent(
        a.0 * b.1 + a.1 * b.0 + a.1 * b.2,
        a.2 * b.1,
        c.0 * d.1 + c.1 * d.0 + c.1 * d.2,
        c.2 * d.1,
    );
    lemma_add_congruent(
        a.0 * b.1 + a.1 * b.0 + a.1 * b.2 + a.2 * b.1,
        a.2 * b.2,
        c.0 * d.1 + c.1 * d.0 + c.1 * d.2 + c.2 * d.1,
        c.2 * d.2,
    );
    lemma_add_congruent(a.0 * b.2, a.1 * b.1, c.0 * d.2, c.1 * d.1);
    lemma_add_congruent(a.0 * b.2 + a.1 * b.1, a.2 * b.0, c.0 * d.2 + c.1 * d.1, c.2 * d.0);
    lemma_add_congruent(
        a.0 * b.2 + a.1 * b.1 + a.2 * b.0,
        a.2 * b.2,
        c.0 * d.2 + c.1 * d.1 + c.2 * d.0,
        c.2 * d.2,
    );
}

/// One is the identity of the integer product, and of the product in the
/// extension on canonical values.
pub proof fn lemma_cube_mul_one(a: CubeValue)
    ensures
        cube_product(a, (1int, 0int, 0int)) == a,
        cube_product((1int, 0int, 0int), a) == a,
        0 <= a.0 < modulus() && 0 <= a.1 < modulus() && 0 <= a.2 < modulus() ==> cube_mul(
            a,
            (1int, 0int, 0int),
        ) == a && cube_mul((1int, 0int, 0int), a) == a,
{
    assert(a.0 * 1 == a.0 && a.1 * 1 == a.1 && a.2 * 1 == a.2);
    assert(a.0 * 0 == 0 && a.1 * 0 == 0 && a.2 * 0 == 0);
    assert(1 * a.0 == a.0 && 1 * a.1 == a.1 && 1 * a.2 == a.2);
    assert(0 * a.0 == 0 && 0 * a.1 == 0 && 0 * a.2 == 0);
    assert(cube_product(a, (1int, 0int, 0int)) == a);
    assert(cube_product((1int, 0int, 0int), a) == a);
}

/// Multiplication in the cubic extension is associative.
pub proof fn lemma_cube_mul_assoc(a: CubeValue, b: CubeValue, c: CubeValue)
    ensures
        cube_mul(cube_mul(a, b), c) == cube_mul(a, cube_mul(b, c)),
{
    let p = cube_product(a, b);
    let q = cube_product(b, c);
    lemma_residue_congruent(p.0);
    lemma_residue_congruent(p.1);
    lemma_residue_congruent(p.2);
    lemma_residue_congruent(q.0);
    lemma_residue_congruent(q.1);
    lemma_residue_congruent(q.2);
    lemma_cube_mul_congruent(cube_reduce(p), c, p, c);
    lemma_cube_mul_congruent(a, cube_reduce(q), a, q);
    lemma_cube_product_assoc(a, b, c);
}

/// The product as it is computed from six products in the base field:
/// those of equal coordinates and those of sums of two coordinates.
spec fn cube_mul_by_sums(x: CubeValue, y: CubeValue) -> CubeValue {
    let m00 = mul_mod(x.0, y.0);
    let m11 = mul_mod(x.1, y.1);
    let m22 = mul_mod(x.2, y.2);
    let s01 = mul_mod(add_mod(x.0, x.1), add_mod(y.0, y.1));
    let s02 = mul_mod(add_mod(x.0, x.2), add_mod(y.0, y.2));
    let s12 = mul_mod(add_mod(x.1, x.2), add_mod(y.1, y.2));
    let d = sub_mod(m00, m11);
    (
        sub_mod(add_mod(s12, d), m22),
        sub_mod(sub_mod(add_mod(s01, s12), add_mod(m11, m11)), m00),
        sub_mod(s02, d),
    )
}

/// A product of two sums of coordinates is congruent to the sum of the four
/// products of coordinates.
proof fn lemma_product_of_sums(x0: int, x1: int, y0: int, y1: int)
    ensures
        congruent(
            mul_mod(add_mod(x0, x1), add_mod(y0, y1)),
            x0 * y0 + x0 * y1 + x1 * y0 + x1 * y1,
        ),
{
    lemma_residue_congruent(x0 + x1);
    lemma_residue_congruent(y0 + y1);
    lemma_mul_congruent(add_mod(x0, x1), add_mod(y0, y1), x0 + x1, y0 + y1);
    assert((x0 + x1) * (y0 + y1) == x0 * y0 + x0 * y1 + x1 * y0 + x1 * y1) by (nonlinear_arith);
}

/// The product computed from sums of coordinates is the product of the
/// extension.
#[verifier::rlimit(40)]
proof fn lemma_cube_mul_by_sums(x: CubeValue, y: CubeValue)
    ensures
        cube_mul_by_sums(x, y) == cube_mul(x, y),
{
    let m00 = mul_mod(x.0, y.0);
    let m11 = mul_mod(x.1, y.1);
    let m22 = mul_mod(x.2, y.2);
    let s01 = mul_mod(add_mod(x.0, x.1), add_mod(y.0, y.1));
    let s02 = mul_mod(add_mod(x.0, x.2), add_mod(y.0, y.2));
    let s12 = mul_mod(add_mod(x.1, x.2), add_mod(y.1, y.2));
    let d = sub_mod(m00, m11);
    let e01 = x.0 * y.0 + x.0 * y.1 + x.1 * y.0 + x.1 * y.1;
    let e02 = x.0 * y.0 + x.0 * y.2 + x.2 * y.0 + x.2 * y.2;
    let e12 = x.1 * y.1 + x.1 * y.2 + x.2 * y.1 + x.2 * y.2;
    lemma_residue_congruent(x.0 * y.0);
    lemma_residue_congruent(x.1 * y.1);
    lemma_residue_congruent(x.2 * y.2);
    lemma_product_of_sums(x.0, x.1, y.0, y.1);
    lemma_product_of_sums(x.0, x.2, y.0, y.2);
    lemma_product_of_sums(x.1, x.2, y.1, y.2);
    lemma_sub_congruent(m00, m11, x.0 * y.0, x.1 * y.1);
    assert(cube_mul_by_sums(x, y).0 == cube_mul(x, y).0) by {
        lemma_add_congruent(s12, d, e12, x.0 * y.0 - x.1 * y.1);
        lemma_sub_congruent(add_mod(s12, d), m22, e12 + (x.0 * y.0 - x.1 * y.1), x.2 * y.2);
    }
    assert(cube_mul_by_sums(x, y).1 == cube_mul(x, y).1) by {
        lemma_add_congruent(s01, s12, e01, e12);
        lemma_add_congruent(m11, m11, x.1 * y.1, x.1 * y.1);
        lemma_sub_congruent(
            add_mod(s01, s12),
            add_mod(m11, m11),
            e01 + e12,
            x.1 * y.1 + x.1 * y.1,
        );
        lemma_sub_congruent(
            sub_mod(add_mod(s01, s12), add_mod(m11, m11)),
            m00,
            e01 + e12 - (x.1 * y.1 + x.1 * y.1),
            x.0 * y.0,
        );
    }
    assert(cube_mul_by_sums(x, y).2 == cube_mul(x, y).2) by {
        lemma_sub_congruent(s02, d, e02, x.0 * y.0 - x.1 * y.1);
    }
}

/// The Frobenius map as it is computed: each coordinate from reduced
/// products with the fixed constants.
spec fn cube_conjugate_by_parts(a: CubeValue) -> CubeValue {
    (
        add_mod(
            add_mod(a.0, mul_mod(FROBENIUS_X_0 as int, a.1)),
            mul_mod(FROBENIUS_X2_0 as int, a.2),
        ),
        add_mod(mul_mod(FROBENIUS_X_1 as int, a.1), mul_mod(FROBENIUS_X2_1 as int, a.2)),
        add_mod(mul_mod(FROBENIUS_X_2 as int, a.1), mul_mod(FROBENIUS_X2_2 as int, a.2)),
    )
}

/// The Frobenius map computed from reduced products is the Frobenius map.
#[verifier::rlimit(40)]
proof fn lemma_cube_conjugate_by_parts(a: CubeValue)
    ensures
        cube_conjugate_by_parts(a) == cube_conjugate(a),
{
    let p10 = FROBENIUS_X_0 * a.1;
    let p20 = FROBENIUS_X2_0 * a.2;
    let p11 = FROBENIUS_X_1 * a.1;
    let p21 = FROBENIUS_X2_1 * a.2;
    let p12 = FROBENIUS_X_2 * a.1;
    let p22 = FROBENIUS_X2_2 * a.2;
    assert(cube_conjugate_by_parts(a).0 == cube_conjugate(a).0) by {
        lemma_residue_congruent(p10);
        lemma_residue_congruent(p20);
        lemma_add_congruent(a.0, p10 % modulus(), a.0, p10);
        lemma_add_congruent(add_mod(a.0, p10 % modulus()), p20 % modulus(), a.0 + p10, p20);
    }
    assert(cube_conjugate_by_parts(a).1 == cube_conjugate(a).1) by {
        lemma_residue_congruent(p11);
        lemma_residue_congruent(p21);
        lemma_add_congruent(p11 % modulus(), p21 % modulus(), p11, p21);
    }
    assert(cube_conjugate_by_parts(a).2 == cube_conjugate(a).2) by {
        lemma_residue_congruent(p12);
        lemma_residue_congruent(p22);
        lemma_add_congruent(p12 % modulus(), p22 % modulus(), p12, p22);
    }
}

/// The adjugate as it is computed from the six products of two coordinates.
spec fn cube_adjugate_by_parts(a: CubeValue) -> CubeValue {
    let m00 = mul_mod(a.0, a.0);
    let m11 = mul_mod(a.1, a.1);
    let m22 = mul_mod(a.2, a.2);
    let m01 = mul_mod(a.0, a.1);
    let m02 = mul_mod(a.0, a.2);
    let m12 = mul_mod(a.1, a.2);
    (
        sub_mod(sub_mod(add_mod(add_mod(m00, add_mod(m02, m02)), m22), m11), m12),
        sub_mod(m22, m01),
        sub_mod(sub_mod(m11, m02), m22),
    )
}

/// The adjugate computed from reduced products is the adjugate.
#[verifier::rlimit(40)]
proof fn lemma_cube_adjugate_by_parts(a: CubeValue)
    ensures
        cube_adjugate_by_parts(a) == cube_adjugate(a),
{
    let m00 = mul_mod(a.0, a.0);
    let m11 = mul_mod(a.1, a.1);
    let m22 = mul_mod(a.2, a.2);
    let m01 = mul_mod(a.0, a.1);
    let m02 = mul_mod(a.0, a.2);
    let m12 = mul_mod(a.1, a.2);
    lemma_residue_congruent(a.0 * a.0);
    lemma_residue_congruent(a.1 * a.1);
    lemma_residue_congruent(a.2 * a.2);
    lemma_residue_congruent(a.0 * a.1);
    lemma_residue_congruent(a.0 * a.2);
    lemma_residue_congruent(a.1 * a.2);
    assert(cube_adjugate_by_parts(a).0 == cube_adjugate(a).0) by {
        lemma_add_congruent(m02, m02, a.0 * a.2, a.0 * a.2);
        lemma_add_congruent(m00, add_mod(m02, m02), a.0 * a.0, a.0 * a.2 + a.0 * a.2);
        lemma_add_congruent(
            add_mod(m00, add_mod(m02, m02)),
            m22,
            a.0 * a.0 + (a.0 * a.2 + a.0 * a.2),
            a.2 * a.2,
        );
        lemma_sub_congruent(
            add_mod(add_mod(m00, add_mod(m02, m02)), m22),
            m11,
            a.0 * a.0 + (a.0 * a.2 + a.0 * a.2) + a.2 * a.2,
            a.1 * a.1,
        );
        lemma_sub_congruent(
            sub_mod(add_mod(add_mod(m00, add_mod(m02, m02)), m22), m11),
            m12,
            a.0 * a.0 + (a.0 * a.2 + a.0 * a.2) + a.2 * a.2 - a.1 * a.1,
            a.1 * a.2,
        );
    }
    assert(cube_adjugate_by_parts(a).1 == cube_adjugate(a).1) by {
        lemma_sub_congruent(m22, m01, a.2 * a.2, a.0 * a.1);
    }
    assert(cube_adjugate_by_parts(a).2 == cube_adjugate(a).2) by {
        lemma_sub_congruent(m11, m02, a.1 * a.1, a.0 * a.2);
        lemma_sub_congruent(sub_mod(m11, m02), m22, a.1 * a.1 - a.0 * a.2, a.2 * a.2);
    }
}

/// Returns the product of the constant `k` and `x`.
fn scale(k: u64, x: BaseElement) -> (r: BaseElement)
    requires
        k < M,
    ensures
        r.value() == mul_mod(k as int, x.value()),
{
    BaseElement(k).mul(x)
}

impl CubeExtension {
    /// Returns the element `a0 + a1 * x + a2 * x^2`.
    pub fn new(a0: BaseElement, a1: BaseElement, a2: BaseElement) -> (r: CubeExtension)
        ensures
            r == CubeExtension(a0, a1, a2),
    {
        CubeExtension(a0, a1, a2)
    }

    /// Returns `self` raised to `power`; the zeroth power of every element is one.
    pub fn exp(self, power: u64) -> (r: CubeExtension)
        ensures
            r.value() == pow_value::<CubeExtension>(self.value(), power as nat),
    {
        exp(self, power)
    }

    /// Returns the product of `self` and the base field element `b`.
    pub fn mul_base(self, b: BaseElement) -> (r: CubeExtension)
        ensures
            r.value() == cube_scale(self.value(), b.value()),
    {
        CubeExtension(self.0.mul(b), self.1.mul(b), self.2.mul(b))
    }

    /// Returns the element that `self` is multiplied by to give its norm.
    pub fn adjugate(self) -> (r: CubeExtension)
        ensures
            r.value() == cube_adjugate(self.value()),
    {
        let a0a0: BaseElement = self.0.square();
        let a1a1: BaseElement = self.1.square();
        let a2a2: BaseElement = self.2.square();
        let a0a1: BaseElement = self.0.mul(self.1);
        let a0a2: BaseElement = self.0.mul(self.2);
        let a1a2: BaseElement = self.1.mul(self.2);
        let t0: BaseElement = a0a0.add(a0a2.double());
        let t1: BaseElement = t0.add(a2a2);
        let t2: BaseElement = t1.sub(a1a1);
        let n0: BaseElement = t2.sub(a1a2);
        let n1: BaseElement = a2a2.sub(a0a1);
        let t3: BaseElement = a1a1.sub(a0a2);
        let n2: BaseElement = t3.sub(a2a2);
        proof {
            assert(CubeExtension(n0, n1, n2).value() == cube_adjugate_by_parts(self.value()));
            lemma_cube_adjugate_by_parts(self.value());
        }
        CubeExtension(n0, n1, n2)
    }
}

impl FieldElement for CubeExtension {
    type Value = CubeValue;

    open spec fn value(&self) -> CubeValue {
        (self.0.value(), self.1.value(), self.2.value())
    }

    open spec fn zero_value() -> CubeValue {
        (0, 0, 0)
    }

    open spec fn one_value() -> CubeValue {
        (1, 0, 0)
    }

    open spec fn add_values(a: CubeValue, b: CubeValue) -> CubeValue {
        cube_add(a, b)
    }

    open spec fn sub_values(a: CubeValue, b: CubeValue) -> CubeValue {
        cube_sub(a, b)
    }

    open spec fn neg_value(a: CubeValue) -> CubeValue {
        cube_neg(a)
    }

    open spec fn mul_values(a: CubeValue, b: CubeValue) -> CubeValue {
        cube_mul(a, b)
    }

    open spec fn inv_value(a: CubeValue) -> CubeValue {
        cube_inv(a)
    }

    open spec fn conjugate_value(a: CubeValue) -> CubeValue {
        cube_conjugate(a)
    }

    open spec fn is_canonical(v: CubeValue) -> bool {
        0 <= v.0 < modulus() && 0 <= v.1 < modulus() && 0 <= v.2 < modulus()
    }

    proof fn lemma_value_is_canonical(x: CubeExtension) {
    }

    proof fn lemma_mul_values(a: CubeValue, b: CubeValue, c: CubeValue) {
        lemma_cube_mul_assoc(a, b, c);
        lemma_cube_mul_one(a);
    }

    proof fn lemma_inverse(x: CubeExtension) {
        lemma_cube_inverse(x.value());
    }

    fn zero() -> (r: Self)
        ensures
            r == CubeExtension(BaseElement(0), BaseElement(0), BaseElement(0)),
    {
        CubeExtension(BaseElement(0), BaseElement(0), BaseElement(0))
    }

    fn one() -> (r: Self)
        ensures
            r == CubeExtension(BaseElement(1), BaseElement(0), BaseElement(0)),
    {
        CubeExtension(BaseElement(1), BaseElement(0), BaseElement(0))
    }

    fn add(self, rhs: Self) -> (r: Self) {
        CubeExtension(self.0.add(rhs.0), self.1.add(rhs.1), self.2.add(rhs.2))
    }

    fn sub(self, rhs: Self) -> (r: Self) {
        CubeExtension(self.0.sub(rhs.0), self.1.sub(rhs.1), self.2.sub(rhs.2))
    }

    fn neg(self) -> (r: Self)
        ensures
            r.0.0 == neg_mod(self.0.value()),
            r.1.0 == neg_mod(self.1.value()),
            r.2.0 == neg_mod(self.2.value()),
    {
        CubeExtension(self.0.neg(), self.1.neg(), self.2.neg())
    }

    /// Six multiplications in the base field: the mixed terms come from the
    /// three products of sums of two coordinates.
    fn mul(self, rhs: Self) -> (r: Self) {
        let a0b0: BaseElement = self.0.mul(rhs.0);
        let a1b1: BaseElement = self.1.mul(rhs.1);
        let a2b2: BaseElement = self.2.mul(rhs.2);
        let s01: BaseElement = self.0.add(self.1).mul(rhs.0.add(rhs.1));
        let s02: BaseElement = self.0.add(self.2).mul(rhs.0.add(rhs.2));
        let s12: BaseElement = self.1.add(self.2).mul(rhs.1.add(rhs.2));
        let d: BaseElement = a0b0.sub(a1b1);
        let t0: BaseElement = s12.add(d);
        let c0: BaseElement = t0.sub(a2b2);
        let t1: BaseElement = s01.add(s12);
        let t2: BaseElement = t1.sub(a1b1.double());
        let c1: BaseElement = t2.sub(a0b0);
        let c2: BaseElement = s02.sub(d);
        proof {
            lemma_cube_mul_by_sums(self.value(), rhs.value());
        }
        CubeExtension(c0, c1, c2)
    }

    fn double(self) -> (r: Self) {
        CubeExtension(self.0.double(), self.1.double(), self.2.double())
    }

    fn square(self) -> (r: Self) {
        self.mul(self)
    }

    /// The adjugate divided by the norm; zero is returned for zero.
    fn inv(self) -> (r: Self) {
        let numerator: CubeExtension = self.adjugate();
        let n0: BaseElement = self.0.mul(numerator.0);
        let n1: BaseElement = self.1.mul(numerator.2);
        let n2: BaseElement = self.2.mul(numerator.1);
        let partial: BaseElement = n0.add(n1);
        let norm: BaseElement = partial.add(n2);
        proof {
            let x = self.value();
            let n = numerator.value();
            lemma_residue_congruent(x.0 * n.0);
            lemma_residue_congruent(x.1 * n.2);
            lemma_residue_congruent(x.2 * n.1);
            lemma_add_congruent(n0.value(), n1.value(), x.0 * n.0, x.1 * n.2);
            lemma_add_congruent(partial.value(), n2.value(), x.0 * n.0 + x.1 * n.2, x.2 * n.1);
        }
        let denom_inv: BaseElement = norm.inv();
        CubeExtension(
            numerator.0.mul(denom_inv),
            numerator.1.mul(denom_inv),
            numerator.2.mul(denom_inv),
        )
    }

    /// Applies the Frobenius map.
    fn conjugate(self) -> (r: Self) {
        let m10: BaseElement = scale(FROBENIUS_X_0, self.1);
        let m20: BaseElement = scale(FROBENIUS_X2_0, self.2);
        let m11: BaseElement = scale(FROBENIUS_X_1, self.1);
        let m21: BaseElement = scale(FROBENIUS_X2_1, self.2);
        let m12: BaseElement = scale(FROBENIUS_X_2, self.1);
        let m22: BaseElement = scale(FROBENIUS_X2_2, self.2);
        proof {
            lemma_cube_conjugate_by_parts(self.value());
        }
        CubeExtension(self.0.add(m10).add(m20), m11.add(m21), m12.add(m22))
    }

    fn equals(&self, other: &Self) -> (r: bool) {
        self.0.equals(&other.0) && self.1.equals(&other.1) && self.2.equals(&other.2)
    }
}

impl PartialEq for CubeExtension {
    fn eq(&self, other: &CubeExtension) -> (r: bool) {
        self.equals(other)
    }
}

/// Two elements are equal when they denote the same value.
impl PartialEqSpecImpl for CubeExtension {
    open spec fn obeys_eq_spec() -> bool {
        true
    }

    open spec fn eq_spec(&self, other: &CubeExtension) -> bool {
        self.value() == other.value()
    }
}

impl Eq for CubeExtension {

}

} // verus!
