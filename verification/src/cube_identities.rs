//! Polynomial identities over the integers that the laws of the cubic
//! extension rest on. Each is proved by expanding both sides into sums of
//! monomials, one product at a time.

use crate::cube::{
    cube_adjugate_integers, cube_at, cube_norm_integer, cube_product, cubic, cubic_form,
    CubeValue,
};
use crate::modular::{lemma_mul_left_commute, modulus};
use vstd::arithmetic::mul::{lemma_mul_is_associative, lemma_mul_is_commutative};
use vstd::prelude::*;

verus! {

/// The second and third coordinate of the integer product of an element
/// and its adjugate vanish.
#[verifier::rlimit(60)]
pub proof fn lemma_adjugate_rows(a: CubeValue)
    ensures
        cube_product(a, cube_adjugate_integers(a)).1 == 0,
        cube_product(a, cube_adjugate_integers(a)).2 == 0,
{
    let t1 = a.2 * a.2;
    let m_a22 = a.2 * a.2;
    assert(t1 == m_a22);
    let t2 = a.0 * a.1;
    let m_a01a11 = a.0 * a.1;
    assert(t2 == m_a01a11);
    let t3 = t1 - t2;
    let n1 = t3;
    let t4 = a.0 * n1;
    let m_a01a22 = a.0 * m_a22;
    let m_a02a11 = a.0 * m_a01a11;
    assert(t4 == (1) * (a.0 * m_a22) + (-1) * (a.0 * m_a01a11)) by (nonlinear_arith)
        requires
            t4 == a.0 * n1,
            n1 == -m_a01a11 + m_a22,
    ;
    assert(t4 == -m_a02a11 + m_a01a22);
    let t5 = a.0 * a.0;
    let m_a02 = a.0 * a.0;
    assert(t5 == m_a02);
    let t6 = a.0 * a.2;
    let m_a01a21 = a.0 * a.2;
    assert(t6 == m_a01a21);
    let t7 = 2 * t6;
    assert(t7 == 2 * m_a01a21);
    let t8 = t5 + t7;
    let t9 = a.2 * a.2;
    assert(t9 == m_a22);
    let t10 = t8 + t9;
    let t11 = a.1 * a.1;
    let m_a12 = a.1 * a.1;
    assert(t11 == m_a12);
    let t12 = t10 - t11;
    let t13 = a.1 * a.2;
    let m_a11a21 = a.1 * a.2;
    assert(t13 == m_a11a21);
    let t14 = t12 - t13;
    let n0 = t14;
    let t15 = a.1 * n0;
    lemma_mul_is_commutative(a.1, a.0);
    assert(a.1 * a.0 == m_a01a11);
    lemma_mul_left_commute(a.1, a.0, a.0);
    assert(a.1 * m_a02 == m_a02a11);
    lemma_mul_left_commute(a.1, a.0, a.2);
    let m_a01a11a21 = a.0 * m_a11a21;
    assert(a.1 * m_a01a21 == m_a01a11a21);
    let m_a11a22 = a.1 * m_a22;
    let m_a13 = a.1 * m_a12;
    let m_a12a21 = a.1 * m_a11a21;
    assert(t15 == (1) * (a.1 * m_a02) + (2) * (a.1 * m_a01a21) + (1) * (a.1 * m_a22) + (-1)
        * (a.1 * m_a12) + (-1) * (a.1 * m_a11a21)) by (nonlinear_arith)
        requires
            t15 == a.1 * n0,
            n0 == m_a02 + 2 * m_a01a21 - m_a12 - m_a11a21 + m_a22,
    ;
    assert(t15 == m_a02a11 + 2 * m_a01a11a21 - m_a13 - m_a12a21 + m_a11a22);
    let t16 = t4 + t15;
    let t17 = a.1 * a.1;
    assert(t17 == m_a12);
    let t18 = a.0 * a.2;
    assert(t18 == m_a01a21);
    let t19 = t17 - t18;
    let t20 = a.2 * a.2;
    assert(t20 == m_a22);
    let t21 = t19 - t20;
    let n2 = t21;
    let t22 = a.1 * n2;
    assert(t22 == (1) * (a.1 * m_a12) + (-1) * (a.1 * m_a01a21) + (-1)
        * (a.1 * m_a22)) by (nonlinear_arith)
        requires
            t22 == a.1 * n2,
            n2 == -m_a01a21 + m_a12 - m_a22,
    ;
    assert(t22 == -m_a01a11a21 + m_a13 - m_a11a22);
    let t23 = t16 + t22;
    let t24 = a.2 * n1;
    let m_a23 = a.2 * m_a22;
    lemma_mul_is_commutative(a.2, a.1);
    assert(a.2 * a.1 == m_a11a21);
    lemma_mul_left_commute(a.2, a.0, a.1);
    assert(a.2 * m_a01a11 == m_a01a11a21);
    assert(t24 == (1) * (a.2 * m_a22) + (-1) * (a.2 * m_a01a11)) by (nonlinear_arith)
        requires
            t24 == a.2 * n1,
            n1 == -m_a01a11 + m_a22,
    ;
    assert(t24 == -m_a01a11a21 + m_a23);
    let t25 = t23 + t24;
    let t26 = a.2 * n2;
    lemma_mul_left_commute(a.2, a.1, a.1);
    assert(a.2 * m_a12 == m_a12a21);
    lemma_mul_left_commute(a.2, a.0, a.2);
    assert(a.2 * m_a01a21 == m_a01a22);
    assert(t26 == (1) * (a.2 * m_a12) + (-1) * (a.2 * m_a01a21) + (-1)
        * (a.2 * m_a22)) by (nonlinear_arith)
        requires
            t26 == a.2 * n2,
            n2 == -m_a01a21 + m_a12 - m_a22,
    ;
    assert(t26 == -m_a01a22 + m_a12a21 - m_a23);
    let t27 = t25 + t26;
    assert(t27 == 0);
    let t28 = a.0 * n2;
    let m_a01a12 = a.0 * m_a12;
    let m_a02a21 = a.0 * m_a01a21;
    assert(t28 == (1) * (a.0 * m_a12) + (-1) * (a.0 * m_a01a21) + (-1)
        * (a.0 * m_a22)) by (nonlinear_arith)
        requires
            t28 == a.0 * n2,
            n2 == -m_a01a21 + m_a12 - m_a22,
    ;
    assert(t28 == -m_a02a21 + m_a01a12 - m_a01a22);
    let t29 = a.1 * n1;
    lemma_mul_left_commute(a.1, a.0, a.1);
    assert(a.1 * m_a01a11 == m_a01a12);
    assert(t29 == (1) * (a.1 * m_a22) + (-1) * (a.1 * m_a01a11)) by (nonlinear_arith)
        requires
            t29 == a.1 * n1,
            n1 == -m_a01a11 + m_a22,
    ;
    assert(t29 == -m_a01a12 + m_a11a22);
    let t30 = t28 + t29;
    let t31 = a.2 * n0;
    lemma_mul_is_commutative(a.2, a.0);
    assert(a.2 * a.0 == m_a01a21);
    lemma_mul_left_commute(a.2, a.0, a.0);
    assert(a.2 * m_a02 == m_a02a21);
    lemma_mul_left_commute(a.2, a.1, a.2);
    assert(a.2 * m_a11a21 == m_a11a22);
    assert(t31 == (1) * (a.2 * m_a02) + (2) * (a.2 * m_a01a21) + (1) * (a.2 * m_a22) + (-1)
        * (a.2 * m_a12) + (-1) * (a.2 * m_a11a21)) by (nonlinear_arith)
        requires
            t31 == a.2 * n0,
            n0 == m_a02 + 2 * m_a01a21 - m_a12 - m_a11a21 + m_a22,
    ;
    assert(t31 == m_a02a21 + 2 * m_a01a22 - m_a12a21 - m_a11a22 + m_a23);
    let t32 = t30 + t31;
    let t33 = a.2 * n2;
    assert(t33 == (1) * (a.2 * m_a12) + (-1) * (a.2 * m_a01a21) + (-1)
        * (a.2 * m_a22)) by (nonlinear_arith)
        requires
            t33 == a.2 * n2,
            n2 == -m_a01a21 + m_a12 - m_a22,
    ;
    assert(t33 == -m_a01a22 + m_a12a21 - m_a23);
    let t34 = t32 + t33;
    assert(t34 == 0);
}

/// With `n` the adjugate of `a`, the form `n1^3 - n1 n2^2 - n2^3` is a
/// multiple of the norm of `a`.
#[verifier::rlimit(60)]
pub proof fn lemma_adjugate_cubic_form(a: CubeValue)
    ensures
        cubic_form(cube_adjugate_integers(a).1, cube_adjugate_integers(a).2) == 0 - (a.1
            * cube_adjugate_integers(a).2 - a.2
                * cube_adjugate_integers(a).1) * cube_norm_integer(a),
{
    let t1 = a.2 * a.2;
    let m_a22 = a.2 * a.2;
    assert(t1 == m_a22);
    let t2 = a.0 * a.1;
    let m_a01a11 = a.0 * a.1;
    assert(t2 == m_a01a11);
    let t3 = t1 - t2;
    let n1 = t3;
    let t4 = n1 * n1;
    assert(n1 * m_a22 == (1) * (m_a22 * m_a22) + (-1) * (m_a01a11 * m_a22)) by (nonlinear_arith)
        requires
            n1 == -m_a01a11 + m_a22,
    ;
    let m_a23 = a.2 * m_a22;
    let m_a24 = a.2 * m_a23;
    lemma_mul_is_associative(a.2, a.2, m_a22);
    assert(m_a22 * m_a22 == m_a24);
    let m_a11a22 = a.1 * m_a22;
    let m_a01a11a22 = a.0 * m_a11a22;
    lemma_mul_is_associative(a.0, a.1, m_a22);
    assert(m_a01a11 * m_a22 == m_a01a11a22);
    assert(n1 * m_a01a11 == (1) * (m_a22 * m_a01a11) + (-1)
        * (m_a01a11 * m_a01a11)) by (nonlinear_arith)
        requires
            n1 == -m_a01a11 + m_a22,
    ;
    lemma_mul_is_commutative(a.2, a.1);
    let m_a11a21 = a.1 * a.2;
    assert(a.2 * a.1 == m_a11a21);
    lemma_mul_left_commute(a.2, a.0, a.1);
    let m_a01a11a21 = a.0 * m_a11a21;
    assert(a.2 * m_a01a11 == m_a01a11a21);
    lemma_mul_left_commute(a.2, a.1, a.2);
    assert(a.2 * m_a11a21 == m_a11a22);
    lemma_mul_left_commute(a.2, a.0, m_a11a21);
    assert(a.2 * m_a01a11a21 == m_a01a11a22);
    lemma_mul_is_associative(a.2, a.2, m_a01a11);
    assert(m_a22 * m_a01a11 == m_a01a11a22);
    let m_a12 = a.1 * a.1;
    lemma_mul_left_commute(a.1, a.0, a.1);
    let m_a01a12 = a.0 * m_a12;
    assert(a.1 * m_a01a11 == m_a01a12);
    let m_a02a12 = a.0 * m_a01a12;
    lemma_mul_is_associative(a.0, a.1, m_a01a11);
    assert(m_a01a11 * m_a01a11 == m_a02a12);
    assert(t4 == (1) * (n1 * m_a22) + (-1) * (n1 * m_a01a11)) by (nonlinear_arith)
        requires
            t4 == n1 * n1,
            n1 == -m_a01a11 + m_a22,
    ;
    assert(t4 == m_a02a12 - 2 * m_a01a11a22 + m_a24);
    let t5 = n1 * t4;
    assert(n1 * m_a24 == (1) * (m_a22 * m_a24) + (-1) * (m_a01a11 * m_a24)) by (nonlinear_arith)
        requires
            n1 == -m_a01a11 + m_a22,
    ;
    let m_a25 = a.2 * m_a24;
    let m_a26 = a.2 * m_a25;
    lemma_mul_is_associative(a.2, a.2, m_a24);
    assert(m_a22 * m_a24 == m_a26);
    let m_a11a24 = a.1 * m_a24;
    let m_a01a11a24 = a.0 * m_a11a24;
    lemma_mul_is_associative(a.0, a.1, m_a24);
    assert(m_a01a11 * m_a24 == m_a01a11a24);
    assert(n1 * m_a01a11a22 == (1) * (m_a22 * m_a01a11a22) + (-1)
        * (m_a01a11 * m_a01a11a22)) by (nonlinear_arith)
        requires
            n1 == -m_a01a11 + m_a22,
    ;
    lemma_mul_left_commute(a.2, a.1, m_a22);
    let m_a11a23 = a.1 * m_a23;
    assert(a.2 * m_a11a22 == m_a11a23);
    lemma_mul_left_commute(a.2, a.0, m_a11a22);
    let m_a01a11a23 = a.0 * m_a11a23;
    assert(a.2 * m_a01a11a22 == m_a01a11a23);
    lemma_mul_left_commute(a.2, a.1, m_a23);
    assert(a.2 * m_a11a23 == m_a11a24);
    lemma_mul_left_commute(a.2, a.0, m_a11a23);
    assert(a.2 * m_a01a11a23 == m_a01a11a24);
    lemma_mul_is_associative(a.2, a.2, m_a01a11a22);
    assert(m_a22 * m_a01a11a22 == m_a01a11a24);
    let m_a12a22 = a.1 * m_a11a22;
    lemma_mul_left_commute(a.1, a.0, m_a11a22);
    let m_a01a12a22 = a.0 * m_a12a22;
    assert(a.1 * m_a01a11a22 == m_a01a12a22);
    let m_a02a12a22 = a.0 * m_a01a12a22;
    lemma_mul_is_associative(a.0, a.1, m_a01a11a22);
    assert(m_a01a11 * m_a01a11a22 == m_a02a12a22);
    assert(n1 * m_a02a12 == (1) * (m_a22 * m_a02a12) + (-1)
        * (m_a01a11 * m_a02a12)) by (nonlinear_arith)
        requires
            n1 == -m_a01a11 + m_a22,
    ;
    lemma_mul_left_commute(a.2, a.1, a.1);
    let m_a12a21 = a.1 * m_a11a21;
    assert(a.2 * m_a12 == m_a12a21);
    lemma_mul_left_commute(a.2, a.0, m_a12);
    let m_a01a12a21 = a.0 * m_a12a21;
    assert(a.2 * m_a01a12 == m_a01a12a21);
    lemma_mul_left_commute(a.2, a.0, m_a01a12);
    let m_a02a12a21 = a.0 * m_a01a12a21;
    assert(a.2 * m_a02a12 == m_a02a12a21);
    lemma_mul_left_commute(a.2, a.1, m_a11a21);
    assert(a.2 * m_a12a21 == m_a12a22);
    lemma_mul_left_commute(a.2, a.0, m_a12a21);
    assert(a.2 * m_a01a12a21 == m_a01a12a22);
    lemma_mul_left_commute(a.2, a.0, m_a01a12a21);
    assert(a.2 * m_a02a12a21 == m_a02a12a22);
    lemma_mul_is_associative(a.2, a.2, m_a02a12);
    assert(m_a22 * m_a02a12 == m_a02a12a22);
    let m_a13 = a.1 * m_a12;
    lemma_mul_left_commute(a.1, a.0, m_a12);
    let m_a01a13 = a.0 * m_a13;
    assert(a.1 * m_a01a12 == m_a01a13);
    lemma_mul_left_commute(a.1, a.0, m_a01a12);
    let m_a02a13 = a.0 * m_a01a13;
    assert(a.1 * m_a02a12 == m_a02a13);
    let m_a03a13 = a.0 * m_a02a13;
    lemma_mul_is_associative(a.0, a.1, m_a02a12);
    assert(m_a01a11 * m_a02a12 == m_a03a13);
    assert(t5 == (1) * (n1 * m_a24) + (-2) * (n1 * m_a01a11a22) + (1)
        * (n1 * m_a02a12)) by (nonlinear_arith)
        requires
            t5 == n1 * t4,
            t4 == m_a02a12 - 2 * m_a01a11a22 + m_a24,
    ;
    assert(t5 == -m_a03a13 + 3 * m_a02a12a22 - 3 * m_a01a11a24 + m_a26);
    let t6 = a.1 * a.1;
    assert(t6 == m_a12);
    let t7 = a.0 * a.2;
    let m_a01a21 = a.0 * a.2;
    assert(t7 == m_a01a21);
    let t8 = t6 - t7;
    let t9 = a.2 * a.2;
    assert(t9 == m_a22);
    let t10 = t8 - t9;
    let n2 = t10;
    let t11 = n2 * n2;
    assert(n2 * m_a12 == (1) * (m_a12 * m_a12) + (-1) * (m_a01a21 * m_a12) + (-1)
        * (m_a22 * m_a12)) by (nonlinear_arith)
        requires
            n2 == -m_a01a21 + m_a12 - m_a22,
    ;
    let m_a14 = a.1 * m_a13;
    lemma_mul_is_associative(a.1, a.1, m_a12);
    assert(m_a12 * m_a12 == m_a14);
    lemma_mul_is_associative(a.0, a.2, m_a12);
    assert(m_a01a21 * m_a12 == m_a01a12a21);
    lemma_mul_is_associative(a.2, a.2, m_a12);
    assert(m_a22 * m_a12 == m_a12a22);
    assert(n2 * m_a01a21 == (1) * (m_a12 * m_a01a21) + (-1) * (m_a01a21 * m_a01a21) + (-1)
        * (m_a22 * m_a01a21)) by (nonlinear_arith)
        requires
            n2 == -m_a01a21 + m_a12 - m_a22,
    ;
    lemma_mul_left_commute(a.1, a.0, a.2);
    assert(a.1 * m_a01a21 == m_a01a11a21);
    lemma_mul_left_commute(a.1, a.0, m_a11a21);
    assert(a.1 * m_a01a11a21 == m_a01a12a21);
    lemma_mul_is_associative(a.1, a.1, m_a01a21);
    assert(m_a12 * m_a01a21 == m_a01a12a21);
    lemma_mul_left_commute(a.2, a.0, a.2);
    let m_a01a22 = a.0 * m_a22;
    assert(a.2 * m_a01a21 == m_a01a22);
    let m_a02a22 = a.0 * m_a01a22;
    lemma_mul_is_associative(a.0, a.2, m_a01a21);
    assert(m_a01a21 * m_a01a21 == m_a02a22);
    lemma_mul_left_commute(a.2, a.0, m_a22);
    let m_a01a23 = a.0 * m_a23;
    assert(a.2 * m_a01a22 == m_a01a23);
    lemma_mul_is_associative(a.2, a.2, m_a01a21);
    assert(m_a22 * m_a01a21 == m_a01a23);
    assert(n2 * m_a22 == (1) * (m_a12 * m_a22) + (-1) * (m_a01a21 * m_a22) + (-1)
        * (m_a22 * m_a22)) by (nonlinear_arith)
        requires
            n2 == -m_a01a21 + m_a12 - m_a22,
    ;
    lemma_mul_is_associative(a.1, a.1, m_a22);
    assert(m_a12 * m_a22 == m_a12a22);
    lemma_mul_is_associative(a.0, a.2, m_a22);
    assert(m_a01a21 * m_a22 == m_a01a23);
    assert(t11 == (1) * (n2 * m_a12) + (-1) * (n2 * m_a01a21) + (-1)
        * (n2 * m_a22)) by (nonlinear_arith)
        requires
            t11 == n2 * n2,
            n2 == -m_a01a21 + m_a12 - m_a22,
    ;
    assert(t11 == m_a02a22 - 2 * m_a01a12a21 + 2 * m_a01a23 + m_a14 - 2 * m_a12a22 + m_a24);
    let t12 = n1 * t11;
    assert(n1 * m_a14 == (1) * (m_a22 * m_a14) + (-1) * (m_a01a11 * m_a14)) by (nonlinear_arith)
        requires
            n1 == -m_a01a11 + m_a22,
    ;
    lemma_mul_left_commute(a.2, a.1, m_a12);
    let m_a13a21 = a.1 * m_a12a21;
    assert(a.2 * m_a13 == m_a13a21);
    lemma_mul_left_commute(a.2, a.1, m_a13);
    let m_a14a21 = a.1 * m_a13a21;
    assert(a.2 * m_a14 == m_a14a21);
    lemma_mul_left_commute(a.2, a.1, m_a12a21);
    let m_a13a22 = a.1 * m_a12a22;
    assert(a.2 * m_a13a21 == m_a13a22);
    lemma_mul_left_commute(a.2, a.1, m_a13a21);
    let m_a14a22 = a.1 * m_a13a22;
    assert(a.2 * m_a14a21 == m_a14a22);
    lemma_mul_is_associative(a.2, a.2, m_a14);
    assert(m_a22 * m_a14 == m_a14a22);
    let m_a15 = a.1 * m_a14;
    let m_a01a15 = a.0 * m_a15;
    lemma_mul_is_associative(a.0, a.1, m_a14);
    assert(m_a01a11 * m_a14 == m_a01a15);
    assert(n1 * m_a01a12a21 == (1) * (m_a22 * m_a01a12a21) + (-1)
        * (m_a01a11 * m_a01a12a21)) by (nonlinear_arith)
        requires
            n1 == -m_a01a11 + m_a22,
    ;
    lemma_mul_left_commute(a.2, a.1, m_a11a22);
    let m_a12a23 = a.1 * m_a11a23;
    assert(a.2 * m_a12a22 == m_a12a23);
    lemma_mul_left_commute(a.2, a.0, m_a12a22);
    let m_a01a12a23 = a.0 * m_a12a23;
    assert(a.2 * m_a01a12a22 == m_a01a12a23);
    lemma_mul_is_associative(a.2, a.2, m_a01a12a21);
    assert(m_a22 * m_a01a12a21 == m_a01a12a23);
    lemma_mul_left_commute(a.1, a.0, m_a12a21);
    let m_a01a13a21 = a.0 * m_a13a21;
    assert(a.1 * m_a01a12a21 == m_a01a13a21);
    let m_a02a13a21 = a.0 * m_a01a13a21;
    lemma_mul_is_associative(a.0, a.1, m_a01a12a21);
    assert(m_a01a11 * m_a01a12a21 == m_a02a13a21);
    assert(n1 * m_a12a22 == (1) * (m_a22 * m_a12a22) + (-1)
        * (m_a01a11 * m_a12a22)) by (nonlinear_arith)
        requires
            n1 == -m_a01a11 + m_a22,
    ;
    lemma_mul_left_commute(a.2, a.1, m_a11a23);
    let m_a12a24 = a.1 * m_a11a24;
    assert(a.2 * m_a12a23 == m_a12a24);
    lemma_mul_is_associative(a.2, a.2, m_a12a22);
    assert(m_a22 * m_a12a22 == m_a12a24);
    let m_a01a13a22 = a.0 * m_a13a22;
    lemma_mul_is_associative(a.0, a.1, m_a12a22);
    assert(m_a01a11 * m_a12a22 == m_a01a13a22);
    assert(n1 * m_a02a22 == (1) * (m_a22 * m_a02a22) + (-1)
        * (m_a01a11 * m_a02a22)) by (nonlinear_arith)
        requires
            n1 == -m_a01a11 + m_a22,
    ;
    lemma_mul_left_commute(a.2, a.0, m_a01a22);
    let m_a02a23 = a.0 * m_a01a23;
    assert(a.2 * m_a02a22 == m_a02a23);
    lemma_mul_left_commute(a.2, a.0, m_a23);
    let m_a01a24 = a.0 * m_a24;
    assert(a.2 * m_a01a23 == m_a01a24);
    lemma_mul_left_commute(a.2, a.0, m_a01a23);
    let m_a02a24 = a.0 * m_a01a24;
    assert(a.2 * m_a02a23 == m_a02a24);
    lemma_mul_is_associative(a.2, a.2, m_a02a22);
    assert(m_a22 * m_a02a22 == m_a02a24);
    lemma_mul_left_commute(a.1, a.0, m_a22);
    assert(a.1 * m_a01a22 == m_a01a11a22);
    lemma_mul_left_commute(a.1, a.0, m_a01a22);
    let m_a02a11a22 = a.0 * m_a01a11a22;
    assert(a.1 * m_a02a22 == m_a02a11a22);
    let m_a03a11a22 = a.0 * m_a02a11a22;
    lemma_mul_is_associative(a.0, a.1, m_a02a22);
    assert(m_a01a11 * m_a02a22 == m_a03a11a22);
    assert(n1 * m_a01a23 == (1) * (m_a22 * m_a01a23) + (-1)
        * (m_a01a11 * m_a01a23)) by (nonlinear_arith)
        requires
            n1 == -m_a01a11 + m_a22,
    ;
    lemma_mul_left_commute(a.2, a.0, m_a24);
    let m_a01a25 = a.0 * m_a25;
    assert(a.2 * m_a01a24 == m_a01a25);
    lemma_mul_is_associative(a.2, a.2, m_a01a23);
    assert(m_a22 * m_a01a23 == m_a01a25);
    lemma_mul_left_commute(a.1, a.0, m_a23);
    assert(a.1 * m_a01a23 == m_a01a11a23);
    let m_a02a11a23 = a.0 * m_a01a11a23;
    lemma_mul_is_associative(a.0, a.1, m_a01a23);
    assert(m_a01a11 * m_a01a23 == m_a02a11a23);
    assert(n1 * m_a24 == (1) * (m_a22 * m_a24) + (-1) * (m_a01a11 * m_a24)) by (nonlinear_arith)
        requires
            n1 == -m_a01a11 + m_a22,
    ;
    assert(t12 == (1) * (n1 * m_a14) + (-2) * (n1 * m_a01a12a21) + (-2) * (n1 * m_a12a22) + (1)
        * (n1 * m_a02a22) + (2) * (n1 * m_a01a23) + (1) * (n1 * m_a24)) by (nonlinear_arith)
        requires
            t12 == n1 * t11,
            t11 == m_a02a22 - 2 * m_a01a12a21 + 2 * m_a01a23 + m_a14 - 2 * m_a12a22 + m_a24,
    ;
    assert(t12 == -m_a03a11a22 + 2 * m_a02a13a21 - 2 * m_a02a11a23 + m_a02a24 - m_a01a15 + 2
        * m_a01a13a22 - 2 * m_a01a12a23 - m_a01a11a24 + 2 * m_a01a25 + m_a14a22 - 2 * m_a12a24
        + m_a26);
    let t13 = t5 - t12;
    let t14 = n2 * n2;
    assert(n2 * m_a12 == (1) * (m_a12 * m_a12) + (-1) * (m_a01a21 * m_a12) + (-1)
        * (m_a22 * m_a12)) by (nonlinear_arith)
        requires
            n2 == -m_a01a21 + m_a12 - m_a22,
    ;
    assert(n2 * m_a01a21 == (1) * (m_a12 * m_a01a21) + (-1) * (m_a01a21 * m_a01a21) + (-1)
        * (m_a22 * m_a01a21)) by (nonlinear_arith)
        requires
            n2 == -m_a01a21 + m_a12 - m_a22,
    ;
    assert(n2 * m_a22 == (1) * (m_a12 * m_a22) + (-1) * (m_a01a21 * m_a22) + (-1)
        * (m_a22 * m_a22)) by (nonlinear_arith)
        requires
            n2 == -m_a01a21 + m_a12 - m_a22,
    ;
    assert(t14 == (1) * (n2 * m_a12) + (-1) * (n2 * m_a01a21) + (-1)
        * (n2 * m_a22)) by (nonlinear_arith)
        requires
            t14 == n2 * n2,
            n2 == -m_a01a21 + m_a12 - m_a22,
    ;
    assert(t14 == m_a02a22 - 2 * m_a01a12a21 + 2 * m_a01a23 + m_a14 - 2 * m_a12a22 + m_a24);
    let t15 = n2 * t14;
    assert(n2 * m_a14 == (1) * (m_a12 * m_a14) + (-1) * (m_a01a21 * m_a14) + (-1)
        * (m_a22 * m_a14)) by (nonlinear_arith)
        requires
            n2 == -m_a01a21 + m_a12 - m_a22,
    ;
    let m_a16 = a.1 * m_a15;
    lemma_mul_is_associative(a.1, a.1, m_a14);
    assert(m_a12 * m_a14 == m_a16);
    let m_a01a14a21 = a.0 * m_a14a21;
    lemma_mul_is_associative(a.0, a.2, m_a14);
    assert(m_a01a21 * m_a14 == m_a01a14a21);
    assert(n2 * m_a01a12a21 == (1) * (m_a12 * m_a01a12a21) + (-1) * (m_a01a21 * m_a01a12a21) + (-1)
        * (m_a22 * m_a01a12a21)) by (nonlinear_arith)
        requires
            n2 == -m_a01a21 + m_a12 - m_a22,
    ;
    lemma_mul_left_commute(a.1, a.0, m_a13a21);
    assert(a.1 * m_a01a13a21 == m_a01a14a21);
    lemma_mul_is_associative(a.1, a.1, m_a01a12a21);
    assert(m_a12 * m_a01a12a21 == m_a01a14a21);
    lemma_mul_is_associative(a.0, a.2, m_a01a12a21);
    assert(m_a01a21 * m_a01a12a21 == m_a02a12a22);
    assert(n2 * m_a12a22 == (1) * (m_a12 * m_a12a22) + (-1) * (m_a01a21 * m_a12a22) + (-1)
        * (m_a22 * m_a12a22)) by (nonlinear_arith)
        requires
            n2 == -m_a01a21 + m_a12 - m_a22,
    ;
    lemma_mul_is_associative(a.1, a.1, m_a12a22);
    assert(m_a12 * m_a12a22 == m_a14a22);
    lemma_mul_is_associative(a.0, a.2, m_a12a22);
    assert(m_a01a21 * m_a12a22 == m_a01a12a23);
    assert(n2 * m_a02a22 == (1) * (m_a12 * m_a02a22) + (-1) * (m_a01a21 * m_a02a22) + (-1)
        * (m_a22 * m_a02a22)) by (nonlinear_arith)
        requires
            n2 == -m_a01a21 + m_a12 - m_a22,
    ;
    lemma_mul_left_commute(a.1, a.0, m_a01a11a22);
    assert(a.1 * m_a02a11a22 == m_a02a12a22);
    lemma_mul_is_associative(a.1, a.1, m_a02a22);
    assert(m_a12 * m_a02a22 == m_a02a12a22);
    let m_a03a23 = a.0 * m_a02a23;
    lemma_mul_is_associative(a.0, a.2, m_a02a22);
    assert(m_a01a21 * m_a02a22 == m_a03a23);
    assert(n2 * m_a01a23 == (1) * (m_a12 * m_a01a23) + (-1) * (m_a01a21 * m_a01a23) + (-1)
        * (m_a22 * m_a01a23)) by (nonlinear_arith)
        requires
            n2 == -m_a01a21 + m_a12 - m_a22,
    ;
    lemma_mul_left_commute(a.1, a.0, m_a11a23);
    assert(a.1 * m_a01a11a23 == m_a01a12a23);
    lemma_mul_is_associative(a.1, a.1, m_a01a23);
    assert(m_a12 * m_a01a23 == m_a01a12a23);
    lemma_mul_is_associative(a.0, a.2, m_a01a23);
    assert(m_a01a21 * m_a01a23 == m_a02a24);
    assert(n2 * m_a24 == (1) * (m_a12 * m_a24) + (-1) * (m_a01a21 * m_a24) + (-1)
        * (m_a22 * m_a24)) by (nonlinear_arith)
        requires
            n2 == -m_a01a21 + m_a12 - m_a22,
    ;
    lemma_mul_is_associative(a.1, a.1, m_a24);
    assert(m_a12 * m_a24 == m_a12a24);
    lemma_mul_is_associative(a.0, a.2, m_a24);
    assert(m_a01a21 * m_a24 == m_a01a25);
    assert(t15 == (1) * (n2 * m_a14) + (-2) * (n2 * m_a01a12a21) + (-2) * (n2 * m_a12a22) + (1)
        * (n2 * m_a02a22) + (2) * (n2 * m_a01a23) + (1) * (n2 * m_a24)) by (nonlinear_arith)
        requires
            t15 == n2 * t14,
            t14 == m_a02a22 - 2 * m_a01a12a21 + 2 * m_a01a23 + m_a14 - 2 * m_a12a22 + m_a24,
    ;
    assert(t15 == -m_a03a23 + 3 * m_a02a12a22 - 3 * m_a02a24 - 3 * m_a01a14a21 + 6 * m_a01a12a23
        - 3 * m_a01a25 + m_a16 - 3 * m_a14a22 + 3 * m_a12a24 - m_a26);
    let t16 = t13 - t15;
    let t17 = a.1 * n2;
    assert(t17 == (1) * (a.1 * m_a12) + (-1) * (a.1 * m_a01a21) + (-1)
        * (a.1 * m_a22)) by (nonlinear_arith)
        requires
            t17 == a.1 * n2,
            n2 == -m_a01a21 + m_a12 - m_a22,
    ;
    assert(t17 == -m_a01a11a21 + m_a13 - m_a11a22);
    let t18 = a.2 * n1;
    assert(t18 == (1) * (a.2 * m_a22) + (-1) * (a.2 * m_a01a11)) by (nonlinear_arith)
        requires
            t18 == a.2 * n1,
            n1 == -m_a01a11 + m_a22,
    ;
    assert(t18 == -m_a01a11a21 + m_a23);
    let t19 = t17 - t18;
    let t20 = a.0 * a.0;
    let m_a02 = a.0 * a.0;
    assert(t20 == m_a02);
    let t21 = a.0 * a.2;
    assert(t21 == m_a01a21);
    let t22 = 2 * t21;
    assert(t22 == 2 * m_a01a21);
    let t23 = t20 + t22;
    let t24 = a.2 * a.2;
    assert(t24 == m_a22);
    let t25 = t23 + t24;
    let t26 = a.1 * a.1;
    assert(t26 == m_a12);
    let t27 = t25 - t26;
    let t28 = a.1 * a.2;
    assert(t28 == m_a11a21);
    let t29 = t27 - t28;
    let n0 = t29;
    let t30 = a.0 * n0;
    let m_a03 = a.0 * m_a02;
    let m_a02a21 = a.0 * m_a01a21;
    assert(t30 == (1) * (a.0 * m_a02) + (2) * (a.0 * m_a01a21) + (1) * (a.0 * m_a22) + (-1)
        * (a.0 * m_a12) + (-1) * (a.0 * m_a11a21)) by (nonlinear_arith)
        requires
            t30 == a.0 * n0,
            n0 == m_a02 + 2 * m_a01a21 - m_a12 - m_a11a21 + m_a22,
    ;
    assert(t30 == m_a03 + 2 * m_a02a21 - m_a01a12 - m_a01a11a21 + m_a01a22);
    let t31 = a.1 * n2;
    assert(t31 == (1) * (a.1 * m_a12) + (-1) * (a.1 * m_a01a21) + (-1)
        * (a.1 * m_a22)) by (nonlinear_arith)
        requires
            t31 == a.1 * n2,
            n2 == -m_a01a21 + m_a12 - m_a22,
    ;
    assert(t31 == -m_a01a11a21 + m_a13 - m_a11a22);
    let t32 = t30 + t31;
    let t33 = a.2 * n1;
    assert(t33 == (1) * (a.2 * m_a22) + (-1) * (a.2 * m_a01a11)) by (nonlinear_arith)
        requires
            t33 == a.2 * n1,
            n1 == -m_a01a11 + m_a22,
    ;
    assert(t33 == -m_a01a11a21 + m_a23);
    let t34 = t32 + t33;
    let norm = t34;
    let t35 = t19 * norm;
    assert(t19 * m_a03 == (1) * (m_a13 * m_a03) + (-1) * (m_a11a22 * m_a03) + (-1)
        * (m_a23 * m_a03)) by (nonlinear_arith)
        requires
            t19 == m_a13 - m_a11a22 - m_a23,
    ;
    lemma_mul_is_commutative(a.1, a.0);
    assert(a.1 * a.0 == m_a01a11);
    lemma_mul_left_commute(a.1, a.0, a.0);
    let m_a02a11 = a.0 * m_a01a11;
    assert(a.1 * m_a02 == m_a02a11);
    lemma_mul_left_commute(a.1, a.0, m_a02);
    let m_a03a11 = a.0 * m_a02a11;
    assert(a.1 * m_a03 == m_a03a11);
    lemma_mul_left_commute(a.1, a.0, m_a01a11);
    assert(a.1 * m_a02a11 == m_a02a12);
    lemma_mul_left_commute(a.1, a.0, m_a02a11);
    let m_a03a12 = a.0 * m_a02a12;
    assert(a.1 * m_a03a11 == m_a03a12);
    lemma_mul_is_associative(a.1, a.1, m_a03);
    assert(m_a12 * m_a03 == m_a03a12);
    lemma_mul_left_commute(a.1, a.0, m_a02a12);
    assert(a.1 * m_a03a12 == m_a03a13);
    lemma_mul_is_associative(a.1, m_a12, m_a03);
    assert(m_a13 * m_a03 == m_a03a13);
    lemma_mul_is_commutative(a.2, a.0);
    assert(a.2 * a.0 == m_a01a21);
    lemma_mul_left_commute(a.2, a.0, a.0);
    assert(a.2 * m_a02 == m_a02a21);
    lemma_mul_left_commute(a.2, a.0, m_a02);
    let m_a03a21 = a.0 * m_a02a21;
    assert(a.2 * m_a03 == m_a03a21);
    lemma_mul_left_commute(a.2, a.0, m_a01a21);
    assert(a.2 * m_a02a21 == m_a02a22);
    lemma_mul_left_commute(a.2, a.0, m_a02a21);
    let m_a03a22 = a.0 * m_a02a22;
    assert(a.2 * m_a03a21 == m_a03a22);
    lemma_mul_is_associative(a.2, a.2, m_a03);
    assert(m_a22 * m_a03 == m_a03a22);
    lemma_mul_left_commute(a.1, a.0, m_a02a22);
    assert(a.1 * m_a03a22 == m_a03a11a22);
    lemma_mul_is_associative(a.1, m_a22, m_a03);
    assert(m_a11a22 * m_a03 == m_a03a11a22);
    lemma_mul_left_commute(a.2, a.0, m_a02a22);
    assert(a.2 * m_a03a22 == m_a03a23);
    lemma_mul_is_associative(a.2, m_a22, m_a03);
    assert(m_a23 * m_a03 == m_a03a23);
    assert(t19 * m_a02a21 == (1) * (m_a13 * m_a02a21) + (-1) * (m_a11a22 * m_a02a21) + (-1)
        * (m_a23 * m_a02a21)) by (nonlinear_arith)
        requires
            t19 == m_a13 - m_a11a22 - m_a23,
    ;
    lemma_mul_left_commute(a.1, a.0, m_a01a21);
    let m_a02a11a21 = a.0 * m_a01a11a21;
    assert(a.1 * m_a02a21 == m_a02a11a21);
    lemma_mul_left_commute(a.1, a.0, m_a01a11a21);
    assert(a.1 * m_a02a11a21 == m_a02a12a21);
    lemma_mul_is_associative(a.1, a.1, m_a02a21);
    assert(m_a12 * m_a02a21 == m_a02a12a21);
    lemma_mul_left_commute(a.1, a.0, m_a01a12a21);
    assert(a.1 * m_a02a12a21 == m_a02a13a21);
    lemma_mul_is_associative(a.1, m_a12, m_a02a21);
    assert(m_a13 * m_a02a21 == m_a02a13a21);
    lemma_mul_is_associative(a.2, a.2, m_a02a21);
    assert(m_a22 * m_a02a21 == m_a02a23);
    lemma_mul_left_commute(a.1, a.0, m_a01a23);
    assert(a.1 * m_a02a23 == m_a02a11a23);
    lemma_mul_is_associative(a.1, m_a22, m_a02a21);
    assert(m_a11a22 * m_a02a21 == m_a02a11a23);
    lemma_mul_is_associative(a.2, m_a22, m_a02a21);
    assert(m_a23 * m_a02a21 == m_a02a24);
    assert(t19 * m_a01a22 == (1) * (m_a13 * m_a01a22) + (-1) * (m_a11a22 * m_a01a22) + (-1)
        * (m_a23 * m_a01a22)) by (nonlinear_arith)
        requires
            t19 == m_a13 - m_a11a22 - m_a23,
    ;
    lemma_mul_is_associative(a.1, a.1, m_a01a22);
    assert(m_a12 * m_a01a22 == m_a01a12a22);
    lemma_mul_left_commute(a.1, a.0, m_a12a22);
    assert(a.1 * m_a01a12a22 == m_a01a13a22);
    lemma_mul_is_associative(a.1, m_a12, m_a01a22);
    assert(m_a13 * m_a01a22 == m_a01a13a22);
    lemma_mul_is_associative(a.2, a.2, m_a01a22);
    assert(m_a22 * m_a01a22 == m_a01a24);
    lemma_mul_left_commute(a.1, a.0, m_a24);
    assert(a.1 * m_a01a24 == m_a01a11a24);
    lemma_mul_is_associative(a.1, m_a22, m_a01a22);
    assert(m_a11a22 * m_a01a22 == m_a01a11a24);
    lemma_mul_is_associative(a.2, m_a22, m_a01a22);
    assert(m_a23 * m_a01a22 == m_a01a25);
    assert(t19 * m_a01a12 == (1) * (m_a13 * m_a01a12) + (-1) * (m_a11a22 * m_a01a12) + (-1)
        * (m_a23 * m_a01a12)) by (nonlinear_arith)
        requires
            t19 == m_a13 - m_a11a22 - m_a23,
    ;
    lemma_mul_left_commute(a.1, a.0, m_a13);
    let m_a01a14 = a.0 * m_a14;
    assert(a.1 * m_a01a13 == m_a01a14);
    lemma_mul_is_associative(a.1, a.1, m_a01a12);
    assert(m_a12 * m_a01a12 == m_a01a14);
    lemma_mul_left_commute(a.1, a.0, m_a14);
    assert(a.1 * m_a01a14 == m_a01a15);
    lemma_mul_is_associative(a.1, m_a12, m_a01a12);
    assert(m_a13 * m_a01a12 == m_a01a15);
    lemma_mul_is_associative(a.2, a.2, m_a01a12);
    assert(m_a22 * m_a01a12 == m_a01a12a22);
    lemma_mul_is_associative(a.1, m_a22, m_a01a12);
    assert(m_a11a22 * m_a01a12 == m_a01a13a22);
    lemma_mul_is_associative(a.2, m_a22, m_a01a12);
    assert(m_a23 * m_a01a12 == m_a01a12a23);
    assert(t19 * m_a01a11a21 == (1) * (m_a13 * m_a01a11a21) + (-1) * (m_a11a22 * m_a01a11a21)
        + (-1) * (m_a23 * m_a01a11a21)) by (nonlinear_arith)
        requires
            t19 == m_a13 - m_a11a22 - m_a23,
    ;
    lemma_mul_is_associative(a.1, a.1, m_a01a11a21);
    assert(m_a12 * m_a01a11a21 == m_a01a13a21);
    lemma_mul_is_associative(a.1, m_a12, m_a01a11a21);
    assert(m_a13 * m_a01a11a21 == m_a01a14a21);
    lemma_mul_is_associative(a.2, a.2, m_a01a11a21);
    assert(m_a22 * m_a01a11a21 == m_a01a11a23);
    lemma_mul_is_associative(a.1, m_a22, m_a01a11a21);
    assert(m_a11a22 * m_a01a11a21 == m_a01a12a23);
    lemma_mul_is_associative(a.2, m_a22, m_a01a11a21);
    assert(m_a23 * m_a01a11a21 == m_a01a11a24);
    assert(t19 * m_a13 == (1) * (m_a13 * m_a13) + (-1) * (m_a11a22 * m_a13) + (-1)
        * (m_a23 * m_a13)) by (nonlinear_arith)
        requires
            t19 == m_a13 - m_a11a22 - m_a23,
    ;
    lemma_mul_is_associative(a.1, a.1, m_a13);
    assert(m_a12 * m_a13 == m_a15);
    lemma_mul_is_associative(a.1, m_a12, m_a13);
    assert(m_a13 * m_a13 == m_a16);
    lemma_mul_is_associative(a.2, a.2, m_a13);
    assert(m_a22 * m_a13 == m_a13a22);
    lemma_mul_is_associative(a.1, m_a22, m_a13);
    assert(m_a11a22 * m_a13 == m_a14a22);
    lemma_mul_left_commute(a.2, a.1, m_a12a22);
    let m_a13a23 = a.1 * m_a12a23;
    assert(a.2 * m_a13a22 == m_a13a23);
    lemma_mul_is_associative(a.2, m_a22, m_a13);
    assert(m_a23 * m_a13 == m_a13a23);
    assert(t19 * m_a11a22 == (1) * (m_a13 * m_a11a22) + (-1) * (m_a11a22 * m_a11a22) + (-1)
        * (m_a23 * m_a11a22)) by (nonlinear_arith)
        requires
            t19 == m_a13 - m_a11a22 - m_a23,
    ;
    lemma_mul_is_associative(a.1, a.1, m_a11a22);
    assert(m_a12 * m_a11a22 == m_a13a22);
    lemma_mul_is_associative(a.1, m_a12, m_a11a22);
    assert(m_a13 * m_a11a22 == m_a14a22);
    lemma_mul_is_associative(a.2, a.2, m_a11a22);
    assert(m_a22 * m_a11a22 == m_a11a24);
    lemma_mul_is_associative(a.1, m_a22, m_a11a22);
    assert(m_a11a22 * m_a11a22 == m_a12a24);
    lemma_mul_left_commute(a.2, a.1, m_a24);
    let m_a11a25 = a.1 * m_a25;
    assert(a.2 * m_a11a24 == m_a11a25);
    lemma_mul_is_associative(a.2, m_a22, m_a11a22);
    assert(m_a23 * m_a11a22 == m_a11a25);
    assert(t19 * m_a23 == (1) * (m_a13 * m_a23) + (-1) * (m_a11a22 * m_a23) + (-1)
        * (m_a23 * m_a23)) by (nonlinear_arith)
        requires
            t19 == m_a13 - m_a11a22 - m_a23,
    ;
    lemma_mul_is_associative(a.1, a.1, m_a23);
    assert(m_a12 * m_a23 == m_a12a23);
    lemma_mul_is_associative(a.1, m_a12, m_a23);
    assert(m_a13 * m_a23 == m_a13a23);
    lemma_mul_is_associative(a.2, a.2, m_a23);
    assert(m_a22 * m_a23 == m_a25);
    lemma_mul_is_associative(a.1, m_a22, m_a23);
    assert(m_a11a22 * m_a23 == m_a11a25);
    lemma_mul_is_associative(a.2, m_a22, m_a23);
    assert(m_a23 * m_a23 == m_a26);
    assert(t35 == (1) * (t19 * m_a03) + (2) * (t19 * m_a02a21) + (1) * (t19 * m_a01a22) + (-1)
        * (t19 * m_a01a12) + (-3) * (t19 * m_a01a11a21) + (1) * (t19 * m_a13) + (-1)
        * (t19 * m_a11a22) + (1) * (t19 * m_a23)) by (nonlinear_arith)
        requires
            t35 == t19 * norm,
            norm == m_a03 + 2 * m_a02a21 - m_a01a12 - 3 * m_a01a11a21 + m_a01a22 + m_a13 - m_a11a22
                + m_a23,
    ;
    assert(t35 == m_a03a13 - m_a03a11a22 - m_a03a23 + 2 * m_a02a13a21 - 2 * m_a02a11a23 - 2
        * m_a02a24 - m_a01a15 - 3 * m_a01a14a21 + 2 * m_a01a13a22 + 4 * m_a01a12a23 + 2
        * m_a01a11a24 - m_a01a25 + m_a16 - 2 * m_a14a22 + m_a12a24 - m_a26);
    let t36 = t16 + t35;
    assert(t36 == 0);
}

/// With `n` the adjugate of `a`, `a1 n2 - a2 n1` is the form
/// `a1^3 - a1 a2^2 - a2^3`.
#[verifier::rlimit(60)]
pub proof fn lemma_adjugate_minor(a: CubeValue)
    ensures
        a.1 * cube_adjugate_integers(a).2 - a.2 * cube_adjugate_integers(a).1
            == cubic_form(a.1, a.2),
{
    let t1 = a.1 * a.1;
    let m_a12 = a.1 * a.1;
    assert(t1 == m_a12);
    let t2 = a.0 * a.2;
    let m_a01a21 = a.0 * a.2;
    assert(t2 == m_a01a21);
    let t3 = t1 - t2;
    let t4 = a.2 * a.2;
    let m_a22 = a.2 * a.2;
    assert(t4 == m_a22);
    let t5 = t3 - t4;
    let n2 = t5;
    let t6 = a.1 * n2;
    let m_a13 = a.1 * m_a12;
    let m_a11a21 = a.1 * a.2;
    lemma_mul_left_commute(a.1, a.0, a.2);
    let m_a01a11a21 = a.0 * m_a11a21;
    assert(a.1 * m_a01a21 == m_a01a11a21);
    let m_a11a22 = a.1 * m_a22;
    assert(t6 == (1) * (a.1 * m_a12) + (-1) * (a.1 * m_a01a21) + (-1)
        * (a.1 * m_a22)) by (nonlinear_arith)
        requires
            t6 == a.1 * n2,
            n2 == -m_a01a21 + m_a12 - m_a22,
    ;
    assert(t6 == -m_a01a11a21 + m_a13 - m_a11a22);
    let t7 = a.2 * a.2;
    assert(t7 == m_a22);
    let t8 = a.0 * a.1;
    let m_a01a11 = a.0 * a.1;
    assert(t8 == m_a01a11);
    let t9 = t7 - t8;
    let n1 = t9;
    let t10 = a.2 * n1;
    let m_a23 = a.2 * m_a22;
    lemma_mul_is_commutative(a.2, a.1);
    assert(a.2 * a.1 == m_a11a21);
    lemma_mul_left_commute(a.2, a.0, a.1);
    assert(a.2 * m_a01a11 == m_a01a11a21);
    assert(t10 == (1) * (a.2 * m_a22) + (-1) * (a.2 * m_a01a11)) by (nonlinear_arith)
        requires
            t10 == a.2 * n1,
            n1 == -m_a01a11 + m_a22,
    ;
    assert(t10 == -m_a01a11a21 + m_a23);
    let t11 = t6 - t10;
    let t12 = a.1 * a.1;
    assert(t12 == m_a12);
    let t13 = a.1 * t12;
    assert(t13 == m_a13);
    let t14 = a.2 * a.2;
    assert(t14 == m_a22);
    let t15 = a.1 * t14;
    assert(t15 == m_a11a22);
    let t16 = t13 - t15;
    let t17 = a.2 * a.2;
    assert(t17 == m_a22);
    let t18 = a.2 * t17;
    assert(t18 == m_a23);
    let t19 = t16 - t18;
    assert(t11 == t19);
}

/// The cubic at `s` multiplied by `d^3` is the form `y^3 - y d^2 - d^3` at
/// `y = s d`.
#[verifier::rlimit(60)]
pub proof fn lemma_cubic_times_cube(s: int, d: int)
    ensures
        d * (d * (d * cubic(s))) == cubic_form(s * d, d),
{
    let t1 = s * s;
    let m_s2 = s * s;
    assert(t1 == m_s2);
    let t2 = s * t1;
    let m_s3 = s * m_s2;
    assert(t2 == m_s3);
    let t3 = t2 - s;
    let t4 = t3 - 1;
    let t5 = d * t4;
    lemma_mul_is_commutative(d, s);
    let m_s1d1 = s * d;
    assert(d * s == m_s1d1);
    lemma_mul_left_commute(d, s, s);
    let m_s2d1 = s * m_s1d1;
    assert(d * m_s2 == m_s2d1);
    lemma_mul_left_commute(d, s, m_s2);
    let m_s3d1 = s * m_s2d1;
    assert(d * m_s3 == m_s3d1);
    assert(t5 == (1) * (d * m_s3) + (-1) * (d * s) + (-1) * (d * 1)) by (nonlinear_arith)
        requires
            t5 == d * t4,
            t4 == m_s3 - s - 1,
    ;
    assert(t5 == m_s3d1 - m_s1d1 - d);
    let t6 = d * t5;
    let m_d2 = d * d;
    lemma_mul_left_commute(d, s, d);
    let m_s1d2 = s * m_d2;
    assert(d * m_s1d1 == m_s1d2);
    lemma_mul_left_commute(d, s, m_s1d1);
    let m_s2d2 = s * m_s1d2;
    assert(d * m_s2d1 == m_s2d2);
    lemma_mul_left_commute(d, s, m_s2d1);
    let m_s3d2 = s * m_s2d2;
    assert(d * m_s3d1 == m_s3d2);
    assert(t6 == (1) * (d * m_s3d1) + (-1) * (d * m_s1d1) + (-1) * (d * d)) by (nonlinear_arith)
        requires
            t6 == d * t5,
            t5 == m_s3d1 - m_s1d1 - d,
    ;
    assert(t6 == m_s3d2 - m_s1d2 - m_d2);
    let t7 = d * t6;
    let m_d3 = d * m_d2;
    lemma_mul_left_commute(d, s, m_d2);
    let m_s1d3 = s * m_d3;
    assert(d * m_s1d2 == m_s1d3);
    lemma_mul_left_commute(d, s, m_s1d2);
    let m_s2d3 = s * m_s1d3;
    assert(d * m_s2d2 == m_s2d3);
    lemma_mul_left_commute(d, s, m_s2d2);
    let m_s3d3 = s * m_s2d3;
    assert(d * m_s3d2 == m_s3d3);
    assert(t7 == (1) * (d * m_s3d2) + (-1) * (d * m_s1d2) + (-1) * (d * m_d2)) by (nonlinear_arith)
        requires
            t7 == d * t6,
            t6 == m_s3d2 - m_s1d2 - m_d2,
    ;
    assert(t7 == m_s3d3 - m_s1d3 - m_d3);
    let t8 = s * d;
    assert(t8 == m_s1d1);
    let y = t8;
    let t9 = y * y;
    lemma_mul_is_associative(s, d, m_s1d1);
    assert(m_s1d1 * m_s1d1 == m_s2d2);
    assert(t9 == m_s2d2);
    let t10 = y * t9;
    lemma_mul_is_associative(s, d, m_s2d2);
    assert(m_s1d1 * m_s2d2 == m_s3d3);
    assert(t10 == m_s3d3);
    let t11 = d * d;
    assert(t11 == m_d2);
    let t12 = y * t11;
    lemma_mul_is_associative(s, d, m_d2);
    assert(m_s1d1 * m_d2 == m_s1d3);
    assert(t12 == m_s1d3);
    let t13 = t10 - t12;
    let t14 = d * d;
    assert(t14 == m_d2);
    let t15 = d * t14;
    assert(t15 == m_d3);
    let t16 = t13 - t15;
    assert(t7 == t16);
}

/// The product of the values of two polynomials of degree two at `r` is the
/// value of their product in the extension, up to a multiple of the cubic at
/// `r`.
#[verifier::rlimit(60)]
pub proof fn lemma_product_of_evaluations(p: CubeValue, q: CubeValue, r: int)
    ensures
        cube_at(p, r) * cube_at(q, r) == cube_at(cube_product(p, q), r) + (p.1 * q.2 + p.2 * q.1 + p.2
            * q.2 * r) * cubic(r),
{
    let t1 = p.1 * r;
    let m_p11r1 = p.1 * r;
    assert(t1 == m_p11r1);
    let t2 = p.0 + t1;
    let t3 = r * r;
    let m_r2 = r * r;
    assert(t3 == m_r2);
    let t4 = p.2 * t3;
    let m_p21r2 = p.2 * m_r2;
    assert(t4 == m_p21r2);
    let t5 = t2 + t4;
    let ep = t5;
    let t6 = q.1 * r;
    let m_q11r1 = q.1 * r;
    assert(t6 == m_q11r1);
    let t7 = q.0 + t6;
    let t8 = r * r;
    assert(t8 == m_r2);
    let t9 = q.2 * t8;
    let m_q21r2 = q.2 * m_r2;
    assert(t9 == m_q21r2);
    let t10 = t7 + t9;
    let eq = t10;
    let t11 = ep * eq;
    assert(ep * q.0 == (1) * (p.0 * q.0) + (1) * (m_p11r1 * q.0) + (1)
        * (m_p21r2 * q.0)) by (nonlinear_arith)
        requires
            ep == m_p21r2 + m_p11r1 + p.0,
    ;
    let m_p01q01 = p.0 * q.0;
    lemma_mul_is_commutative(r, q.0);
    let m_q01r1 = q.0 * r;
    assert(r * q.0 == m_q01r1);
    let m_p11q01r1 = p.1 * m_q01r1;
    lemma_mul_is_associative(p.1, r, q.0);
    assert(m_p11r1 * q.0 == m_p11q01r1);
    lemma_mul_left_commute(r, q.0, r);
    let m_q01r2 = q.0 * m_r2;
    assert(r * m_q01r1 == m_q01r2);
    lemma_mul_is_associative(r, r, q.0);
    assert(m_r2 * q.0 == m_q01r2);
    let m_p21q01r2 = p.2 * m_q01r2;
    lemma_mul_is_associative(p.2, m_r2, q.0);
    assert(m_p21r2 * q.0 == m_p21q01r2);
    assert(ep * m_q11r1 == (1) * (p.0 * m_q11r1) + (1) * (m_p11r1 * m_q11r1) + (1)
        * (m_p21r2 * m_q11r1)) by (nonlinear_arith)
        requires
            ep == m_p21r2 + m_p11r1 + p.0,
    ;
    let m_p01q11r1 = p.0 * m_q11r1;
    lemma_mul_left_commute(r, q.1, r);
    let m_q11r2 = q.1 * m_r2;
    assert(r * m_q11r1 == m_q11r2);
    let m_p11q11r2 = p.1 * m_q11r2;
    lemma_mul_is_associative(p.1, r, m_q11r1);
    assert(m_p11r1 * m_q11r1 == m_p11q11r2);
    let m_r3 = r * m_r2;
    lemma_mul_left_commute(r, q.1, m_r2);
    let m_q11r3 = q.1 * m_r3;
    assert(r * m_q11r2 == m_q11r3);
    lemma_mul_is_associative(r, r, m_q11r1);
    assert(m_r2 * m_q11r1 == m_q11r3);
    let m_p21q11r3 = p.2 * m_q11r3;
    lemma_mul_is_associative(p.2, m_r2, m_q11r1);
    assert(m_p21r2 * m_q11r1 == m_p21q11r3);
    assert(ep * m_q21r2 == (1) * (p.0 * m_q21r2) + (1) * (m_p11r1 * m_q21r2) + (1)
        * (m_p21r2 * m_q21r2)) by (nonlinear_arith)
        requires
            ep == m_p21r2 + m_p11r1 + p.0,
    ;
    let m_p01q21r2 = p.0 * m_q21r2;
    lemma_mul_left_commute(r, q.2, m_r2);
    let m_q21r3 = q.2 * m_r3;
    assert(r * m_q21r2 == m_q21r3);
    let m_p11q21r3 = p.1 * m_q21r3;
    lemma_mul_is_associative(p.1, r, m_q21r2);
    assert(m_p11r1 * m_q21r2 == m_p11q21r3);
    let m_r4 = r * m_r3;
    lemma_mul_left_commute(r, q.2, m_r3);
    let m_q21r4 = q.2 * m_r4;
    assert(r * m_q21r3 == m_q21r4);
    lemma_mul_is_associative(r, r, m_q21r2);
    assert(m_r2 * m_q21r2 == m_q21r4);
    let m_p21q21r4 = p.2 * m_q21r4;
    lemma_mul_is_associative(p.2, m_r2, m_q21r2);
    assert(m_p21r2 * m_q21r2 == m_p21q21r4);
    assert(t11 == (1) * (ep * q.0) + (1) * (ep * m_q11r1) + (1)
        * (ep * m_q21r2)) by (nonlinear_arith)
        requires
            t11 == ep * eq,
            eq == m_q21r2 + m_q11r1 + q.0,
    ;
    assert(t11 == m_p21q21r4 + m_p11q21r3 + m_p21q11r3 + m_p01q21r2 + m_p11q11r2 + m_p21q01r2
        + m_p01q11r1 + m_p11q01r1 + m_p01q01);
    let t12 = p.0 * q.0;
    assert(t12 == m_p01q01);
    let t13 = p.1 * q.2;
    let m_p11q21 = p.1 * q.2;
    assert(t13 == m_p11q21);
    let t14 = t12 + t13;
    let t15 = p.2 * q.1;
    let m_p21q11 = p.2 * q.1;
    assert(t15 == m_p21q11);
    let t16 = t14 + t15;
    let t17 = p.0 * q.1;
    let m_p01q11 = p.0 * q.1;
    assert(t17 == m_p01q11);
    let t18 = p.1 * q.0;
    let m_p11q01 = p.1 * q.0;
    assert(t18 == m_p11q01);
    let t19 = t17 + t18;
    let t20 = p.1 * q.2;
    assert(t20 == m_p11q21);
    let t21 = t19 + t20;
    let t22 = p.2 * q.1;
    assert(t22 == m_p21q11);
    let t23 = t21 + t22;
    let t24 = p.2 * q.2;
    let m_p21q21 = p.2 * q.2;
    assert(t24 == m_p21q21);
    let t25 = t23 + t24;
    let t26 = t25 * r;
    assert(t25 * r == (1) * (m_p01q11 * r) + (1) * (m_p11q01 * r) + (1) * (m_p11q21 * r) + (1)
        * (m_p21q11 * r) + (1) * (m_p21q21 * r)) by (nonlinear_arith)
        requires
            t25 == m_p01q11 + m_p11q01 + m_p11q21 + m_p21q11 + m_p21q21,
    ;
    lemma_mul_is_associative(p.0, q.1, r);
    assert(m_p01q11 * r == m_p01q11r1);
    lemma_mul_is_associative(p.1, q.0, r);
    assert(m_p11q01 * r == m_p11q01r1);
    let m_q21r1 = q.2 * r;
    let m_p11q21r1 = p.1 * m_q21r1;
    lemma_mul_is_associative(p.1, q.2, r);
    assert(m_p11q21 * r == m_p11q21r1);
    let m_p21q11r1 = p.2 * m_q11r1;
    lemma_mul_is_associative(p.2, q.1, r);
    assert(m_p21q11 * r == m_p21q11r1);
    let m_p21q21r1 = p.2 * m_q21r1;
    lemma_mul_is_associative(p.2, q.2, r);
    assert(m_p21q21 * r == m_p21q21r1);
    assert(t26 == m_p01q11r1 + m_p11q01r1 + m_p11q21r1 + m_p21q11r1 + m_p21q21r1);
    let t27 = t16 + t26;
    let t28 = p.0 * q.2;
    let m_p01q21 = p.0 * q.2;
    assert(t28 == m_p01q21);
    let t29 = p.1 * q.1;
    let m_p11q11 = p.1 * q.1;
    assert(t29 == m_p11q11);
    let t30 = t28 + t29;
    let t31 = p.2 * q.0;
    let m_p21q01 = p.2 * q.0;
    assert(t31 == m_p21q01);
    let t32 = t30 + t31;
    let t33 = p.2 * q.2;
    assert(t33 == m_p21q21);
    let t34 = t32 + t33;
    let t35 = r * r;
    assert(t35 == m_r2);
    let t36 = t34 * t35;
    assert(t34 * m_r2 == (1) * (m_p01q21 * m_r2) + (1) * (m_p11q11 * m_r2) + (1)
        * (m_p21q01 * m_r2) + (1) * (m_p21q21 * m_r2)) by (nonlinear_arith)
        requires
            t34 == m_p01q21 + m_p11q11 + m_p21q01 + m_p21q21,
    ;
    lemma_mul_is_associative(p.0, q.2, m_r2);
    assert(m_p01q21 * m_r2 == m_p01q21r2);
    lemma_mul_is_associative(p.1, q.1, m_r2);
    assert(m_p11q11 * m_r2 == m_p11q11r2);
    lemma_mul_is_associative(p.2, q.0, m_r2);
    assert(m_p21q01 * m_r2 == m_p21q01r2);
    let m_p21q21r2 = p.2 * m_q21r2;
    lemma_mul_is_associative(p.2, q.2, m_r2);
    assert(m_p21q21 * m_r2 == m_p21q21r2);
    assert(t36 == m_p01q21r2 + m_p11q11r2 + m_p21q01r2 + m_p21q21r2);
    let t37 = t27 + t36;
    let t38 = p.1 * q.2;
    assert(t38 == m_p11q21);
    let t39 = p.2 * q.1;
    assert(t39 == m_p21q11);
    let t40 = t38 + t39;
    let t41 = p.2 * q.2;
    assert(t41 == m_p21q21);
    let t42 = t41 * r;
    assert(t42 == m_p21q21r1);
    let t43 = t40 + t42;
    let t44 = r * r;
    assert(t44 == m_r2);
    let t45 = r * t44;
    assert(t45 == m_r3);
    let t46 = t45 - r;
    let t47 = t46 - 1;
    let t48 = t43 * t47;
    assert(t43 * m_r3 == (1) * (m_p11q21 * m_r3) + (1) * (m_p21q11 * m_r3) + (1)
        * (m_p21q21r1 * m_r3)) by (nonlinear_arith)
        requires
            t43 == m_p21q21r1 + m_p11q21 + m_p21q11,
    ;
    lemma_mul_is_associative(p.1, q.2, m_r3);
    assert(m_p11q21 * m_r3 == m_p11q21r3);
    lemma_mul_is_associative(p.2, q.1, m_r3);
    assert(m_p21q11 * m_r3 == m_p21q11r3);
    lemma_mul_is_associative(q.2, r, m_r3);
    assert(m_q21r1 * m_r3 == m_q21r4);
    lemma_mul_is_associative(p.2, m_q21r1, m_r3);
    assert(m_p21q21r1 * m_r3 == m_p21q21r4);
    assert(t43 * r == (1) * (m_p11q21 * r) + (1) * (m_p21q11 * r) + (1)
        * (m_p21q21r1 * r)) by (nonlinear_arith)
        requires
            t43 == m_p21q21r1 + m_p11q21 + m_p21q11,
    ;
    lemma_mul_is_associative(q.2, r, r);
    assert(m_q21r1 * r == m_q21r2);
    lemma_mul_is_associative(p.2, m_q21r1, r);
    assert(m_p21q21r1 * r == m_p21q21r2);
    assert(t43 * 1 == (1) * (m_p11q21 * 1) + (1) * (m_p21q11 * 1) + (1)
        * (m_p21q21r1 * 1)) by (nonlinear_arith)
        requires
            t43 == m_p21q21r1 + m_p11q21 + m_p21q11,
    ;
    assert(t48 == (1) * (t43 * m_r3) + (-1) * (t43 * r) + (-1) * (t43 * 1)) by (nonlinear_arith)
        requires
            t48 == t43 * t47,
            t47 == m_r3 - r - 1,
    ;
    assert(t48 == m_p21q21r4 + m_p11q21r3 + m_p21q11r3 - m_p21q21r2 - m_p11q21r1 - m_p21q11r1
        - m_p21q21r1 - m_p11q21 - m_p21q11);
    let t49 = t37 + t48;
    assert(t11 == t49);
}

/// A combination of the cubic at `r` and of the quadratic that `x^(M-1) - 1`
/// leaves when it is reduced by the cubic is one more than a multiple of the
/// modulus.
#[verifier::rlimit(60)]
pub proof fn lemma_cubic_has_no_common_root(r: int)
    ensures
        (3351938545640948259 + 2625504788725541602 * r) * cubic(r) + (11086490780951302402
            + 12077805972950442314 * r + 15238614666038134874 * (r * r)) * (17881315270014256395
            + 11746561000929144102 * r + 10615703402128488253 * (r * r)) == 1 + modulus() * (10746668146222514930
            + 18767279218183345013 * r + 28842491316584702322 * (r * r) + 16654197702614836769 * (r * (r * r))
            + 8769494114801794644 * (r * (r * (r * r)))),
{
    let t1 = 2625504788725541602 * r;
    assert(t1 == 2625504788725541602 * r);
    let t2 = 3351938545640948259 + t1;
    let t3 = r * r;
    let m_r2 = r * r;
    assert(t3 == m_r2);
    let t4 = r * t3;
    let m_r3 = r * m_r2;
    assert(t4 == m_r3);
    let t5 = t4 - r;
    let t6 = t5 - 1;
    let t7 = t2 * t6;
    assert(t2 * m_r3 == (3351938545640948259) * (1 * m_r3) + (2625504788725541602)
        * (r * m_r3)) by (nonlinear_arith)
        requires
            t2 == 2625504788725541602 * r + 3351938545640948259,
    ;
    let m_r4 = r * m_r3;
    assert(t2 * r == (3351938545640948259) * (1 * r) + (2625504788725541602)
        * (r * r)) by (nonlinear_arith)
        requires
            t2 == 2625504788725541602 * r + 3351938545640948259,
    ;
    assert(t2 * 1 == (3351938545640948259) * (1 * 1) + (2625504788725541602)
        * (r * 1)) by (nonlinear_arith)
        requires
            t2 == 2625504788725541602 * r + 3351938545640948259,
    ;
    assert(t7 == (1) * (t2 * m_r3) + (-1) * (t2 * r) + (-1) * (t2 * 1)) by (nonlinear_arith)
        requires
            t7 == t2 * t6,
            t6 == m_r3 - r - 1,
    ;
    assert(t7 == 2625504788725541602 * m_r4 + 3351938545640948259 * m_r3 - 2625504788725541602
        * m_r2 - 5977443334366489861 * r - 3351938545640948259);
    let t8 = 12077805972950442314 * r;
    assert(t8 == 12077805972950442314 * r);
    let t9 = 11086490780951302402 + t8;
    let t10 = r * r;
    assert(t10 == m_r2);
    let t11 = 15238614666038134874 * t10;
    assert(t11 == 15238614666038134874 * m_r2);
    let t12 = t9 + t11;
    let t13 = 11746561000929144102 * r;
    assert(t13 == 11746561000929144102 * r);
    let t14 = 17881315270014256395 + t13;
    let t15 = r * r;
    assert(t15 == m_r2);
    let t16 = 10615703402128488253 * t15;
    assert(t16 == 10615703402128488253 * m_r2);
    let t17 = t14 + t16;
    let t18 = t12 * t17;
    assert(t12 * 1 == (11086490780951302402) * (1 * 1) + (12077805972950442314) * (r * 1)
        + (15238614666038134874) * (m_r2 * 1)) by (nonlinear_arith)
        requires
            t12 == 15238614666038134874 * m_r2 + 12077805972950442314 * r + 11086490780951302402,
    ;
    assert(t12 * r == (11086490780951302402) * (1 * r) + (12077805972950442314) * (r * r)
        + (15238614666038134874) * (m_r2 * r)) by (nonlinear_arith)
        requires
            t12 == 15238614666038134874 * m_r2 + 12077805972950442314 * r + 11086490780951302402,
    ;
    lemma_mul_is_associative(r, r, r);
    assert(m_r2 * r == m_r3);
    assert(t12 * m_r2 == (11086490780951302402) * (1 * m_r2) + (12077805972950442314) * (r * m_r2)
        + (15238614666038134874) * (m_r2 * m_r2)) by (nonlinear_arith)
        requires
            t12 == 15238614666038134874 * m_r2 + 12077805972950442314 * r + 11086490780951302402,
    ;
    lemma_mul_is_associative(r, r, m_r2);
    assert(m_r2 * m_r2 == m_r4);
    assert(t18 == (17881315270014256395) * (t12 * 1) + (11746561000929144102) * (t12 * r)
        + (10615703402128488253) * (t12 * m_r2)) by (nonlinear_arith)
        requires
            t18 == t12 * t17,
            t17 == 10615703402128488253 * m_r2 + 11746561000929144102 * r + 17881315270014256395,
    ;
    assert(t18 == 161768613553986105220236059729338635122 * m_r4
        + 307215722701568235202940266541760750590 * m_r3 + 532050055641350503575544197857879034964
        * m_r2 + 346195196617071196290803874177089831034 * r
        + 198241036892296802159007378782807360790);
    let t19 = t7 + t18;
    let t20 = 18767279218183345013 * r;
    assert(t20 == 18767279218183345013 * r);
    let t21 = 10746668146222514930 + t20;
    let t22 = r * r;
    assert(t22 == m_r2);
    let t23 = 28842491316584702322 * t22;
    assert(t23 == 28842491316584702322 * m_r2);
    let t24 = t21 + t23;
    let t25 = r * r;
    assert(t25 == m_r2);
    let t26 = r * t25;
    assert(t26 == m_r3);
    let t27 = 16654197702614836769 * t26;
    assert(t27 == 16654197702614836769 * m_r3);
    let t28 = t24 + t27;
    let t29 = r * r;
    assert(t29 == m_r2);
    let t30 = r * t29;
    assert(t30 == m_r3);
    let t31 = r * t30;
    assert(t31 == m_r4);
    let t32 = 8769494114801794644 * t31;
    assert(t32 == 8769494114801794644 * m_r4);
    let t33 = t28 + t32;
    let t34 = 18446744069414584321 * t33;
    assert(t34 == 161768613553986105222861564518064176724 * m_r4
        + 307215722701568235206292205087401698849 * m_r3 + 532050055641350503572918693069153493362
        * m_r2 + 346195196617071196284826430842723341173 * r
        + 198241036892296802155655440237166412530);
    let t35 = 1 + t34;
    assert(t19 == t35);
}

} // verus!
