//! Moduli whose nonzero residues are all powers of one residue.
//!
//! A modulus `n` with a residue `g` such that `g^(n-1) = 1` while
//! `g^((n-1)/q) != 1` for every prime factor `q` of `n - 1` has `n - 1`
//! distinct powers of `g`, which must then be all the nonzero residues. Every
//! nonzero residue is therefore invertible and has `1` as its `(n-1)`-th
//! power.

use vstd::arithmetic::div_mod::{
    lemma_fundamental_div_mod, lemma_fundamental_div_mod_converse, lemma_mod_multiples_basic,
    lemma_mod_bound, lemma_mod_twice, lemma_mul_mod_noop_general, lemma_small_mod,
};
use vstd::arithmetic::mul::{lemma_mul_is_associative, lemma_mul_is_commutative};
use vstd::arithmetic::power::{
    lemma1_pow, lemma_pow_adds, lemma_pow_mod_noop, lemma_pow_multiplies, pow,
};
use vstd::arithmetic::power2::{lemma2_to64, lemma_pow2_unfold, pow2};
use vstd::prelude::*;
use vstd::relations::injective_on;
use vstd::set_lib::{lemma_int_range, lemma_map_size, lemma_subset_equality, set_int_range};

verus! {

/// `b` raised to the power `e`, reduced modulo `n`.
pub open spec fn pow_mod_n(b: int, e: nat, n: int) -> int {
    pow(b, e) % n
}

/// Whether some multiple of `c` is congruent to one modulo `n`.
pub open spec fn invertible(c: int, n: int) -> bool {
    exists|u: int| #[trigger] ((u * c) % n) == 1
}

/// Whether every residue modulo `n` but zero is invertible.
pub open spec fn is_field_modulus(n: int) -> bool {
    n > 1 && forall|c: int| #[trigger] (c % n) != 0 ==> invertible(c, n)
}

/// The product of the members of `fs`.
pub open spec fn product(fs: Seq<int>) -> int
    decreases fs.len(),
{
    if fs.len() == 0 {
        1
    } else {
        fs[0] * product(fs.skip(1))
    }
}

/// Whether `fs` lists factors of `order`, each a field modulus, whose
/// product is `order`, and `g` has `1` as its power at `order` modulo `n`
/// but not at `order / q` for any `q` in `fs`.
pub open spec fn has_order(g: int, n: int, order: int, fs: Seq<int>) -> bool {
    &&& n > 1
    &&& order > 0
    &&& product(fs) == order
    &&& forall|i: int| 0 <= i < fs.len() ==> is_field_modulus(#[trigger] fs[i])
    &&& pow_mod_n(g, order as nat, n) == 1
    &&& forall|i: int| 0 <= i < fs.len() ==> pow_mod_n(g, (order / #[trigger] fs[i]) as nat, n) != 1
}

/// Whether `g` has the order `n - 1` modulo `n`, with `fs` the factors of
/// `n - 1`.
pub open spec fn generates(g: int, n: int, fs: Seq<int>) -> bool {
    has_order(g, n, n - 1, fs)
}

/// The exponent splits over a product of powers.
pub proof fn lemma_pow_mod_n_adds(g: int, a: nat, b: nat, n: int)
    requires
        n > 0,
    ensures
        pow_mod_n(g, a + b, n) == (pow_mod_n(g, a, n) * pow_mod_n(g, b, n)) % n,
{
    lemma_pow_adds(g, a, b);
    lemma_mul_mod_noop_general(pow(g, a), pow(g, b), n);
}

/// A power of a power multiplies the exponents.
pub proof fn lemma_pow_mod_n_multiplies(g: int, a: nat, b: nat, n: int)
    requires
        n > 0,
    ensures
        pow_mod_n(pow_mod_n(g, a, n), b, n) == pow_mod_n(g, a * b, n),
{
    lemma_pow_mod_noop(pow(g, a), b, n);
    lemma_pow_multiplies(g, a, b);
}

/// Every power of one is one.
pub proof fn lemma_pow_mod_n_of_one(b: nat, n: int)
    requires
        n > 1,
    ensures
        pow_mod_n(1, b, n) == 1,
{
    lemma1_pow(b);
    lemma_small_mod(1, n as nat);
}

/// A power of a residue whose `e`-th power is one is one at every multiple
/// of `e`.
pub proof fn lemma_pow_mod_n_at_multiple(g: int, e: nat, k: nat, n: int)
    requires
        n > 1,
        pow_mod_n(g, e, n) == 1,
    ensures
        pow_mod_n(g, e * k, n) == 1,
{
    lemma_pow_mod_n_multiplies(g, e, k, n);
    lemma_pow_mod_n_of_one(k, n);
}

/// Where two powers of `g` agree and some positive power of `g` is one, the
/// power at the difference of the exponents is one.
pub proof fn lemma_power_at_difference(g: int, n: int, period: nat, a: nat, b: nat)
    requires
        n > 1,
        period >= 1,
        pow_mod_n(g, period, n) == 1,
        b <= a,
        pow_mod_n(g, a, n) == pow_mod_n(g, b, n),
    ensures
        pow_mod_n(g, (a - b) as nat, n) == 1,
{
    let d = (a - b) as nat;
    assert(b * (period - 1) >= 0) by (nonlinear_arith)
        requires
            b >= 0,
            period >= 1,
    ;
    let s = (b * (period - 1)) as nat;
    assert(b + s == period * b) by (nonlinear_arith)
        requires
            s == b * (period - 1),
    ;
    lemma_pow_mod_n_at_multiple(g, period, b, n);
    lemma_pow_mod_n_adds(g, a, s, n);
    lemma_pow_mod_n_adds(g, b, s, n);
    lemma_pow_mod_n_adds(g, d, period * b, n);
    assert(a + s == d + period * b);
    assert(pow_mod_n(g, d, n) * 1 == pow_mod_n(g, d, n));
    lemma_mod_twice(pow(g, d), n);
}

/// Where the powers of `g` at `a` and at `b` are one, so is the power at the
/// remainder of `a` by `b`.
pub proof fn lemma_power_at_remainder(g: int, n: int, a: nat, b: nat)
    requires
        n > 1,
        b > 0,
        pow_mod_n(g, a, n) == 1,
        pow_mod_n(g, b, n) == 1,
    ensures
        pow_mod_n(g, a % b, n) == 1,
{
    let q = a / b;
    let r = a % b;
    lemma_fundamental_div_mod(a as int, b as int);
    lemma_pow_mod_n_at_multiple(g, b, q, n);
    lemma_pow_mod_n_adds(g, b * q, r, n);
    assert(1 * pow_mod_n(g, r, n) == pow_mod_n(g, r, n));
    lemma_mod_twice(pow(g, r), n);
}

/// Where the powers of `g` at `a` and at `b` are one, so is the power at a
/// positive common divisor of `a` and `b`.
pub proof fn lemma_power_at_common_divisor(g: int, n: int, a: nat, b: nat) -> (e: nat)
    requires
        n > 1,
        a > 0,
        pow_mod_n(g, a, n) == 1,
        pow_mod_n(g, b, n) == 1,
    ensures
        e > 0,
        a % e == 0,
        b % e == 0,
        pow_mod_n(g, e, n) == 1,
    decreases b,
{
    if b == 0 {
        lemma_mod_multiples_basic(1, a as int);
        a
    } else {
        lemma_power_at_remainder(g, n, a, b);
        let r = a % b;
        let e = lemma_power_at_common_divisor(g, n, b, r);
        lemma_fundamental_div_mod(a as int, b as int);
        lemma_fundamental_div_mod(b as int, e as int);
        lemma_fundamental_div_mod(r as int, e as int);
        let q = a as int / b as int;
        let kb = b as int / e as int;
        let kr = r as int / e as int;
        assert(a == (q * kb + kr) * e) by (nonlinear_arith)
            requires
                a == b * q + r,
                b == e * kb,
                r == e * kr,
        ;
        lemma_mod_multiples_basic(q * kb + kr, e as int);
        e
    }
}

/// A number that divides `q * m` and is invertible modulo `q` divides `m`.
pub proof fn lemma_cancel_factor(c: int, q: int, m: int)
    requires
        c > 0,
        q > 0,
        (q * m) % c == 0,
        invertible(c, q),
    ensures
        m % c == 0,
{
    let u = choose|u: int| #[trigger] ((u * c) % q) == 1;
    let v = (u * c) / q;
    let w = (q * m) / c;
    lemma_fundamental_div_mod(u * c, q);
    lemma_fundamental_div_mod(q * m, c);
    assert(m == (m * u - v * w) * c) by (nonlinear_arith)
        requires
            u * c == q * v + 1,
            q * m == c * w,
    ;
    lemma_mod_multiples_basic(m * u - v * w, c);
}

/// A divisor greater than one of a product of field moduli is a multiple of
/// one of them.
pub proof fn lemma_divisor_has_factor(c: int, fs: Seq<int>) -> (i: int)
    requires
        c > 1,
        product(fs) % c == 0,
        forall|j: int| 0 <= j < fs.len() ==> is_field_modulus(#[trigger] fs[j]),
    ensures
        0 <= i < fs.len(),
        c % fs[i] == 0,
    decreases fs.len(),
{
    if fs.len() == 0 {
        lemma_small_mod(1, c as nat);
        0
    } else if c % fs[0] == 0 {
        0
    } else {
        assert(is_field_modulus(fs[0]));
        lemma_cancel_factor(c, fs[0], product(fs.skip(1)));
        assert forall|j: int| 0 <= j < fs.skip(1).len() implies is_field_modulus(
            #[trigger] fs.skip(1)[j],
        ) by {
            assert(fs.skip(1)[j] == fs[j + 1]);
        }
        let i = lemma_divisor_has_factor(c, fs.skip(1));
        assert(fs.skip(1)[i] == fs[i + 1]);
        i + 1
    }
}

/// No positive exponent below the order of `g` gives one as a power of `g`.
pub proof fn lemma_exact_order(g: int, n: int, order: nat, fs: Seq<int>, d: nat)
    requires
        has_order(g, n, order as int, fs),
        d > 0,
        pow_mod_n(g, d, n) == 1,
    ensures
        d >= order,
{
    if d < order {
        let e = lemma_power_at_common_divisor(g, n, d, order);
        lemma_fundamental_div_mod(order as int, e as int);
        lemma_fundamental_div_mod(d as int, e as int);
        let c = order as int / e as int;
        assert(e <= d) by (nonlinear_arith)
            requires
                d == e * (d as int / e as int),
                d > 0,
                e > 0,
        ;
        assert(c > 1) by (nonlinear_arith)
            requires
                order == e * c,
                e < order,
                e > 0,
        ;
        lemma_mul_is_commutative(e as int, c);
        lemma_mod_multiples_basic(e as int, c);
        let i = lemma_divisor_has_factor(c, fs);
        let q = fs[i];
        assert(is_field_modulus(q));
        lemma_fundamental_div_mod(c, q);
        let rest = c / q;
        assert(rest >= 0) by (nonlinear_arith)
            requires
                c == q * rest,
                c > 1,
                q > 1,
        ;
        assert(order == q * (e * rest) + 0) by (nonlinear_arith)
            requires
                order == e * c,
                c == q * rest,
        ;
        lemma_fundamental_div_mod_converse(order as int, q, e * rest, 0);
        assert(e * rest >= 0) by (nonlinear_arith)
            requires
                e > 0,
                rest >= 0,
        ;
        lemma_pow_mod_n_at_multiple(g, e, rest as nat, n);
        assert(false);
    }
}

/// The powers of `g` at different exponents below `n - 1` differ.
pub proof fn lemma_powers_differ(g: int, n: int, fs: Seq<int>, i: nat, j: nat)
    requires
        generates(g, n, fs),
        i < j < n - 1,
    ensures
        pow_mod_n(g, i, n) != pow_mod_n(g, j, n),
{
    if pow_mod_n(g, i, n) == pow_mod_n(g, j, n) {
        lemma_power_at_difference(g, n, (n - 1) as nat, j, i);
        lemma_exact_order(g, n, (n - 1) as nat, fs, (j - i) as nat);
    }
}

/// No power of `g` is zero.
pub proof fn lemma_powers_are_nonzero(g: int, n: int, fs: Seq<int>, k: nat)
    requires
        generates(g, n, fs),
        k < n - 1,
    ensures
        0 < pow_mod_n(g, k, n) < n,
{
    lemma_pow_mod_n_adds(g, k, (n - 1 - k) as nat, n);
    lemma_mod_bound(pow(g, k), n);
    if pow_mod_n(g, k, n) == 0 {
        assert(0 * pow_mod_n(g, (n - 1 - k) as nat, n) == 0);
        lemma_small_mod(0, n as nat);
    }
}

/// Every residue but zero is a power of `g`.
pub proof fn lemma_residue_is_power(g: int, n: int, fs: Seq<int>, a: int) -> (k: nat)
    requires
        generates(g, n, fs),
        a % n != 0,
    ensures
        k < n - 1,
        pow_mod_n(g, k, n) == a % n,
{
    let exponents = set_int_range(0, n - 1);
    let residues = set_int_range(1, n);
    let power = |k: int| pow_mod_n(g, k as nat, n);
    let powers = exponents.map(power);
    lemma_int_range(0, n - 1);
    lemma_int_range(1, n);
    assert(injective_on(power, exponents)) by {
        assert forall|x1: int, x2: int|
            exponents.contains(x1) && exponents.contains(x2) && #[trigger] power(x1)
                == #[trigger] power(x2) implies x1 == x2 by {
            if x1 < x2 {
                lemma_powers_differ(g, n, fs, x1 as nat, x2 as nat);
            } else if x2 < x1 {
                lemma_powers_differ(g, n, fs, x2 as nat, x1 as nat);
            }
        }
    }
    lemma_map_size(exponents, powers, power);
    assert(powers.subset_of(residues)) by {
        assert forall|r: int| powers.contains(r) implies residues.contains(r) by {
            let k = choose|k: int| exponents.contains(k) && power(k) == r;
            lemma_powers_are_nonzero(g, n, fs, k as nat);
        }
    }
    lemma_subset_equality(powers, residues);
    assert(residues.contains(a % n));
    assert(powers.contains(a % n));
    let k = choose|k: int| exponents.contains(k) && power(k) == a % n;
    k as nat
}

/// Every residue but zero has one as its `(n-1)`-th power.
pub proof fn lemma_little_theorem(g: int, n: int, fs: Seq<int>, a: int)
    requires
        generates(g, n, fs),
        a % n != 0,
    ensures
        pow_mod_n(a, (n - 1) as nat, n) == 1,
{
    let order = (n - 1) as nat;
    let k = lemma_residue_is_power(g, n, fs, a);
    lemma_pow_mod_noop(a, order, n);
    lemma_pow_mod_n_multiplies(g, k, order, n);
    lemma_mul_is_commutative(k as int, order as int);
    lemma_pow_mod_n_at_multiple(g, order, k, n);
}

/// A modulus with a generator of its nonzero residues is a field modulus.
pub proof fn lemma_generated_is_field(g: int, n: int, fs: Seq<int>)
    requires
        generates(g, n, fs),
    ensures
        is_field_modulus(n),
{
    assert forall|c: int| #[trigger] (c % n) != 0 implies invertible(c, n) by {
        lemma_little_theorem(g, n, fs, c);
        let order = (n - 1) as nat;
        if order == 0 {
            lemma_small_mod(1, n as nat);
            assert(false);
        }
        let u = pow(c, (order - 1) as nat);
        assert(pow(c, order) == c * u) by {
            reveal(pow);
        }
        lemma_mul_is_commutative(c, u);
        assert((u * c) % n == 1);
    }
}

/// The product of two lists of factors put together is the product of
/// their products.
pub proof fn lemma_product_of_concatenation(a: Seq<int>, b: Seq<int>)
    ensures
        product(a + b) == product(a) * product(b),
    decreases a.len(),
{
    if a.len() == 0 {
        assert(a + b =~= b);
        assert(1 * product(b) == product(b));
    } else {
        assert((a + b).skip(1) =~= a.skip(1) + b);
        lemma_product_of_concatenation(a.skip(1), b);
        lemma_mul_is_associative(a[0], product(a.skip(1)), product(b));
    }
}

/// The list of `t` factors two.
pub open spec fn twos(t: nat) -> Seq<int> {
    Seq::new(t, |i: int| 2int)
}

/// The product of `t` factors two is `2^t`.
pub proof fn lemma_product_of_twos(t: nat)
    ensures
        product(twos(t)) == pow2(t),
    decreases t,
{
    if t == 0 {
        lemma2_to64();
    } else {
        assert(twos(t).skip(1) =~= twos((t - 1) as nat));
        lemma_product_of_twos((t - 1) as nat);
        lemma_pow2_unfold(t);
    }
}

/// Two is a field modulus.
pub proof fn lemma_two_is_field()
    ensures
        is_field_modulus(2),
{
    assert forall|c: int| #[trigger] (c % 2) != 0 implies invertible(c, 2) by {
        assert((1 * c) % 2 == 1);
    }
}

/// A modulus `n = 2^t + 1` with a residue whose `2^(t-1)`-th power is `-1`
/// is a field modulus.
pub proof fn lemma_two_power_generator(g: int, n: int, t: nat)
    requires
        t >= 1,
        n == pow2(t) + 1,
        n > 2,
        pow_mod_n(g, pow2((t - 1) as nat), n) == n - 1,
    ensures
        is_field_modulus(n),
{
    let half = pow2((t - 1) as nat);
    lemma_pow2_unfold(t);
    lemma_product_of_twos(t);
    lemma_two_is_field();
    lemma_pow_mod_n_adds(g, half, half, n);
    assert((n - 1) * (n - 1) == n * (n - 2) + 1) by (nonlinear_arith);
    lemma_fundamental_div_mod_converse((n - 1) * (n - 1), n, n - 2, 1);
    assert((n - 1) / 2 == half);
    assert(generates(g, n, twos(t)));
    lemma_generated_is_field(g, n, twos(t));
}

/// One squaring in a computation of a power: from the power at `e` to the
/// power at `2 e`.
pub proof fn lemma_square_step(b: int, e: nat, v: int, w: int, n: int)
    requires
        n > 0,
        pow_mod_n(b, e, n) == v,
        (v * v) % n == w,
    ensures
        pow_mod_n(b, 2 * e, n) == w,
{
    lemma_pow_mod_n_adds(b, e, e, n);
}

/// One multiplication in a computation of a power: from the powers at `e1`
/// and `e2` to the power at `e1 + e2`.
pub proof fn lemma_multiply_step(b: int, e1: nat, v1: int, e2: nat, v2: int, w: int, n: int)
    requires
        n > 0,
        pow_mod_n(b, e1, n) == v1,
        pow_mod_n(b, e2, n) == v2,
        (v1 * v2) % n == w,
    ensures
        pow_mod_n(b, e1 + e2, n) == w,
{
    lemma_pow_mod_n_adds(b, e1, e2, n);
}

} // verus!
