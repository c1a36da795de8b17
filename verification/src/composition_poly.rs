//! A composition polynomial split into columns of the length of the trace.

use crate::base::BaseElement;
use crate::domain::StarkDomain;
use crate::polynom::{eval, eval_value};
use crate::traits::{exp, pow_value, FieldElement};
use vstd::arithmetic::div_mod::{
    lemma_fundamental_div_mod, lemma_fundamental_div_mod_converse, lemma_mod_bound,
};
use vstd::arithmetic::mul::{lemma_mul_inequality, lemma_mul_is_commutative};
use vstd::arithmetic::power2::is_pow2;
use vstd::prelude::*;

verus! {

/// The contents of a vector of vectors.
pub open spec fn columns_view<E>(columns: Seq<Vec<E>>) -> Seq<Seq<E>> {
    Seq::new(columns.len(), |c: int| columns[c]@)
}

/// The coefficients redistributed over `num_columns` columns: the
/// coefficient at index `i` stands in column `i mod num_columns`, at row
/// `i div num_columns`.
pub open spec fn transposed<E>(coefficients: Seq<E>, num_columns: nat) -> Seq<Seq<E>>
    recommends
        num_columns > 0,
        coefficients.len() % num_columns == 0,
{
    Seq::new(
        num_columns,
        |c: int|
            Seq::new(
                coefficients.len() / num_columns,
                |r: int| coefficients[r * num_columns + c],
            ),
    )
}

/// The coefficient at index `i` stands in column `i mod k` at row `i div k`,
/// and every place of every column is taken by one coefficient.
pub proof fn lemma_transposed_places<E>(coefficients: Seq<E>, num_columns: nat, i: int)
    requires
        num_columns > 0,
        coefficients.len() % num_columns == 0,
        0 <= i < coefficients.len(),
    ensures
        0 <= i % (num_columns as int) < num_columns,
        0 <= i / (num_columns as int) < coefficients.len() / num_columns,
        transposed(coefficients, num_columns)[i % (num_columns as int)][i / (num_columns as int)]
            == coefficients[i],
{
    let k = num_columns as int;
    let rows = coefficients.len() as int / k;
    lemma_fundamental_div_mod(i, k);
    lemma_fundamental_div_mod(coefficients.len() as int, k);
    lemma_mod_bound(i, k);
    lemma_mul_is_commutative(k, i / k);
    if i / k >= rows {
        lemma_mul_inequality(rows, i / k, k);
        lemma_mul_is_commutative(rows, k);
    }
    if i / k < 0 {
        lemma_mul_inequality(i / k, -1, k);
    }
}

/// Of two powers of two, the smaller divides the larger, and the quotient
/// is a power of two, at least two.
pub proof fn lemma_pow2_divides(x: int, y: int)
    requires
        is_pow2(x),
        is_pow2(y),
        y < x,
    ensures
        x % y == 0,
        (x / y) * y == x,
        is_pow2(x / y),
        x / y >= 2,
    decreases x,
{
    reveal(is_pow2);
    if y == 1 {
    } else {
        lemma_pow2_divides(x / 2, y / 2);
        let q = (x / 2) / (y / 2);
        assert(q * y == x) by (nonlinear_arith)
            requires
                q * (y / 2) == x / 2,
                x == 2 * (x / 2),
                y == 2 * (y / 2),
        ;
        lemma_fundamental_div_mod_converse(x, y, q, 0);
    }
}

/// Splits `coefficients` into `num_columns` columns of equal length, so that
/// the coefficient at index `i` lands in column `i mod num_columns` at row
/// `i div num_columns`.
pub fn transpose<E: FieldElement>(coefficients: Vec<E>, num_columns: usize) -> (r: Vec<Vec<E>>)
    requires
        num_columns > 0,
        coefficients.len() % num_columns == 0,
    ensures
        columns_view(r@) == transposed(coefficients@, num_columns as nat),
{
    let column_len: usize = coefficients.len() / num_columns;
    let mut result: Vec<Vec<E>> = Vec::with_capacity(num_columns);
    let mut c: usize = 0;
    while c < num_columns
        invariant
            c <= num_columns,
            num_columns > 0,
            column_len == coefficients.len() / num_columns,
            coefficients.len() % num_columns == 0,
            result.len() == c,
            forall|j: int|
                0 <= j < c ==> (#[trigger] result[j])@ == transposed(
                    coefficients@,
                    num_columns as nat,
                )[j],
        decreases num_columns - c,
    {
        let mut column: Vec<E> = Vec::with_capacity(column_len);
        let mut row: usize = 0;
        while row < column_len
            invariant
                row <= column_len,
                c < num_columns,
                column_len == coefficients.len() / num_columns,
                coefficients.len() % num_columns == 0,
                column.len() == row,
                forall|i: int|
                    0 <= i < row ==> #[trigger] column[i] == coefficients[i * num_columns + c],
            decreases column_len - row,
        {
            proof {
                lemma_fundamental_div_mod(coefficients.len() as int, num_columns as int);
                lemma_mul_inequality(row + 1, column_len as int, num_columns as int);
                lemma_mul_is_commutative(column_len as int, num_columns as int);
                assert((row + 1) * num_columns == row * num_columns + num_columns)
                    by (nonlinear_arith);
                assert(0 <= row * num_columns) by (nonlinear_arith);
            }
            column.push(coefficients[row * num_columns + c]);
            row = row + 1;
        }
        assert(column@ =~= transposed(coefficients@, num_columns as nat)[c as int]);
        result.push(column);
        c = c + 1;
    }
    assert(columns_view(result@) =~= transposed(coefficients@, num_columns as nat));
    result
}

/// Whether `extend` accepts the column with coefficients `column` together
/// with the parameters of `domain`, however the two are stored.
pub open spec fn can_extend<E, F: Fn(&[E], &[BaseElement], BaseElement, usize) -> Vec<E>>(
    extend: F,
    column: Seq<E>,
    domain: StarkDomain,
) -> bool {
    forall|coefficients: &[E], twiddles: &[BaseElement]|
        coefficients@ == column && twiddles@ == domain.twiddles() ==> #[trigger] call_requires(
            extend,
            (coefficients, twiddles, domain.coset_offset(), domain.blowup()),
        )
}

/// Whether `evaluations` is what `extend` returned for the column with
/// coefficients `column` and the parameters of `domain`.
pub open spec fn extends<E, F: Fn(&[E], &[BaseElement], BaseElement, usize) -> Vec<E>>(
    extend: F,
    column: Seq<E>,
    domain: StarkDomain,
    evaluations: Vec<E>,
) -> bool {
    exists|coefficients: &[E], twiddles: &[BaseElement]|
        coefficients@ == column && twiddles@ == domain.twiddles() && #[trigger] call_ensures(
            extend,
            (coefficients, twiddles, domain.coset_offset(), domain.blowup()),
            evaluations,
        )
}

/// A polynomial of degree `k * n - 1` held as `k` column polynomials of
/// degree `n - 1`, where `n` is the length of the trace.
pub struct CompositionPoly<E: FieldElement> {
    columns: Vec<Vec<E>>,
}

impl<E: FieldElement> View for CompositionPoly<E> {
    type V = Seq<Seq<E>>;

    /// The columns, each a sequence of coefficients, lowest degree first.
    closed spec fn view(&self) -> Seq<Seq<E>> {
        columns_view(self.columns@)
    }
}

impl<E: FieldElement> CompositionPoly<E> {
    /// The length that all columns have.
    pub open spec fn column_length(&self) -> nat {
        self@[0].len()
    }

    /// There are at least two columns, all of one length; that length and the
    /// number of all coefficients are powers of two; and the coefficient of
    /// the highest degree, the last one of the last column, is not zero.
    pub open spec fn wf(&self) -> bool {
        &&& self@.len() >= 2
        &&& forall|c: int|
            0 <= c < self@.len() ==> (#[trigger] self@[c]).len() == self.column_length()
        &&& is_pow2(self.column_length() as int)
        &&& is_pow2((self@.len() * self.column_length()) as int)
        &&& self@.len() * self.column_length() <= usize::MAX
        &&& self@[self@.len() - 1][self.column_length() - 1].value() != E::zero_value()
    }

    /// Returns the composition polynomial with the given coefficients,
    /// split into columns of length `trace_length`.
    pub fn new(coefficients: Vec<E>, trace_length: usize) -> (r: CompositionPoly<E>)
        requires
            is_pow2(coefficients.len() as int),
            is_pow2(trace_length as int),
            trace_length < coefficients.len(),
            coefficients[coefficients.len() - 1].value() != E::zero_value(),
        ensures
            r.wf(),
            r@.len() == coefficients.len() / trace_length,
            r.column_length() == trace_length,
            r@ == transposed(coefficients@, (coefficients.len() / trace_length) as nat),
    {
        proof {
            reveal(is_pow2);
            lemma_pow2_divides(coefficients.len() as int, trace_length as int);
            let k = coefficients.len() as int / trace_length as int;
            lemma_fundamental_div_mod_converse(
                coefficients.len() as int,
                k,
                trace_length as int,
                0,
            );
            lemma_mul_is_commutative(k, trace_length as int);
            assert((trace_length - 1) * k + (k - 1) == coefficients.len() - 1)
                by (nonlinear_arith)
                requires
                    k * trace_length == coefficients.len(),
            ;
        }
        let num_columns: usize = coefficients.len() / trace_length;
        let columns: Vec<Vec<E>> = transpose(coefficients, num_columns);
        CompositionPoly { columns }
    }

    /// Returns the number of column polynomials.
    pub fn num_columns(&self) -> (r: usize)
        ensures
            r == self@.len(),
    {
        self.columns.len()
    }

    /// Returns the length of each column polynomial, a power of two.
    pub fn column_len(&self) -> (r: usize)
        requires
            self.wf(),
        ensures
            r == self.column_length(),
            is_pow2(r as int),
    {
        self.columns[0].len()
    }

    /// Returns the degree of each column polynomial.
    pub fn column_degree(&self) -> (r: usize)
        requires
            self.wf(),
        ensures
            r == self.column_length() - 1,
    {
        proof {
            reveal(is_pow2);
        }
        self.column_len() - 1
    }

    /// Evaluates the columns over the coset that `domain` describes. The
    /// low-degree extension of each column is left to `extend`, which is
    /// handed the column, the twiddle factors, the offset and the blowup
    /// factor of the domain; the results come in the order of the columns.
    pub fn evaluate<F>(&self, domain: &StarkDomain, extend: F) -> (r: Vec<Vec<E>>) where
        F: Fn(&[E], &[BaseElement], BaseElement, usize) -> Vec<E>,

        requires
            self.wf(),
            domain.wf(),
            self.column_length() == 2 * domain.twiddles().len(),
            forall|c: int|
                0 <= c < self@.len() ==> can_extend(extend, #[trigger] self@[c], *domain),
        ensures
            r.len() == self@.len(),
            forall|c: int|
                0 <= c < r.len() ==> extends(extend, self@[c], *domain, #[trigger] r[c]),
    {
        let twiddles: &[BaseElement] = domain.trace_twiddles().as_slice();
        let offset: BaseElement = domain.offset();
        let blowup: usize = domain.trace_to_lde_blowup();
        let mut result: Vec<Vec<E>> = Vec::with_capacity(self.columns.len());
        let mut c: usize = 0;
        while c < self.columns.len()
            invariant
                c <= self.columns.len(),
                result.len() == c,
                twiddles@ == domain.twiddles(),
                offset == domain.coset_offset(),
                blowup == domain.blowup(),
                forall|j: int|
                    0 <= j < self@.len() ==> can_extend(extend, #[trigger] self@[j], *domain),
                forall|j: int|
                    0 <= j < c ==> extends(extend, self@[j], *domain, #[trigger] result[j]),
            decreases self.columns.len() - c,
        {
            let column: &[E] = self.columns[c].as_slice();
            assert(self@[c as int] == column@);
            assert(can_extend(extend, self@[c as int], *domain));
            let evaluations: Vec<E> = extend(column, twiddles, offset, blowup);
            assert(extends(extend, self@[c as int], *domain, evaluations));
            result.push(evaluations);
            c = c + 1;
        }
        result
    }

    /// Returns the values of the column polynomials at `z^k`, where `k` is
    /// the number of columns: one value for each column, in their order.
    pub fn evaluate_at(&self, z: E) -> (r: Vec<E>)
        ensures
            r.len() == self@.len(),
            forall|c: int|
                0 <= c < r.len() ==> (#[trigger] r[c]).value() == eval_value(
                    self@[c],
                    pow_value::<E>(z.value(), self@.len()),
                ),
    {
        let z_m: E = exp(z, self.columns.len() as u64);
        let mut result: Vec<E> = Vec::with_capacity(self.columns.len());
        let mut c: usize = 0;
        while c < self.columns.len()
            invariant
                c <= self.columns.len(),
                result.len() == c,
                z_m.value() == pow_value::<E>(z.value(), self@.len()),
                forall|j: int|
                    0 <= j < c ==> (#[trigger] result[j]).value() == eval_value(
                        self@[j],
                        z_m.value(),
                    ),
            decreases self.columns.len() - c,
        {
            let value: E = eval(self.columns[c].as_slice(), z_m);
            assert(self@[c as int] == self.columns[c as int]@);
            result.push(value);
            c = c + 1;
        }
        result
    }

    /// Hands the column polynomials over to the caller.
    pub fn into_columns(self) -> (r: Vec<Vec<E>>)
        ensures
            columns_view(r@) == self@,
    {
        self.columns
    }
}

} // verus!
