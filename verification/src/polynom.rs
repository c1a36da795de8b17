//! Polynomials in coefficient form, lowest degree first.

use crate::traits::FieldElement;
use vstd::prelude::*;

verus! {

/// The value of the polynomial with coefficients `p` at the point `x`:
/// `p[0] + x * (p[1] + x * (p[2] + ...))`.
pub open spec fn eval_value<E: FieldElement>(p: Seq<E>, x: E::Value) -> E::Value
    decreases p.len(),
{
    if p.len() == 0 {
        E::zero_value()
    } else {
        E::add_values(E::mul_values(eval_value::<E>(p.skip(1), x), x), p[0].value())
    }
}

/// The index of the highest coefficient of `p` that is not zero, and zero
/// where there is none.
pub open spec fn degree<E: FieldElement>(p: Seq<E>) -> nat
    decreases p.len(),
{
    if p.len() == 0 {
        0
    } else if p.last().value() != E::zero_value() {
        (p.len() - 1) as nat
    } else {
        degree(p.drop_last())
    }
}

/// Evaluates the polynomial with coefficients `p` at `x` by Horner's rule.
pub fn eval<E: FieldElement>(p: &[E], x: E) -> (r: E)
    ensures
        r.value() == eval_value(p@, x.value()),
{
    let mut acc: E = E::zero();
    let mut i: usize = p.len();
    assert(p@.skip(i as int).len() == 0);
    while i > 0
        invariant
            i <= p.len(),
            acc.value() == eval_value(p@.skip(i as int), x.value()),
        decreases i,
    {
        i = i - 1;
        assert(p@.skip(i as int).skip(1) =~= p@.skip(i + 1));
        acc = acc.mul(x).add(p[i]);
    }
    assert(p@.skip(0) =~= p@);
    acc
}

/// Returns the degree of the polynomial with coefficients `p`: the index of
/// its highest coefficient that is not zero, and zero where all are zero.
pub fn degree_of<E: FieldElement>(p: &[E]) -> (r: usize)
    ensures
        r == degree(p@),
{
    let zero: E = E::zero();
    let mut i: usize = p.len();
    assert(p@.take(i as int) =~= p@);
    while i > 0
        invariant
            i <= p.len(),
            zero.value() == E::zero_value(),
            degree(p@) == degree(p@.take(i as int)),
        decreases i,
    {
        i = i - 1;
        if !p[i].equals(&zero) {
            return i;
        }
        assert(p@.take(i + 1).drop_last() =~= p@.take(i as int));
    }
    0
}

} // verus!
