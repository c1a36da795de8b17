//! Arithmetic modulo the prime `2^64 - 2^32 + 1`, stated over mathematical integers.
//!
//! The executable field types compute on machine words; their contracts are
//! written with the functions of this module.

use vstd::arithmetic::div_mod::*;
use vstd::arithmetic::mul::*;
use vstd::arithmetic::power::*;
use vstd::prelude::*;

verus! {

/// The field modulus, `2^64 - 2^32 + 1`.
pub const M: u64 = 0xFFFF_FFFF_0000_0001;

/// The modulus as a mathematical integer.
pub open spec fn modulus() -> int {
    0xFFFF_FFFF_0000_0001
}

/// Sum of two residues.
pub open spec fn add_mod(a: int, b: int) -> int {
    (a + b) % modulus()
}

/// Difference of two residues.
pub open spec fn sub_mod(a: int, b: int) -> int {
    (a - b) % modulus()
}

/// Additive inverse of a residue.
pub open spec fn neg_mod(a: int) -> int {
    (-a) % modulus()
}

/// Product of two residues.
pub open spec fn mul_mod(a: int, b: int) -> int {
    (a * b) % modulus()
}

/// `a` raised to the power `e`, reduced.
pub open spec fn pow_mod(a: int, e: nat) -> int {
    pow(a, e) % modulus()
}

/// The residue that inversion yields: `a^(M - 2)`, which is `0` for `a = 0`.
pub open spec fn inv_mod(a: int) -> int {
    pow_mod(a, (modulus() - 2) as nat)
}

/// Two integers that denote the same residue.
pub open spec fn congruent(a: int, b: int) -> bool {
    a % modulus() == b % modulus()
}

/// An integer that differs from `r` by a multiple of the modulus is congruent to it.
pub proof fn lemma_congruent_by_multiple(x: int, r: int, k: int)
    requires
        x == r + k * modulus(),
    ensures
        congruent(x, r),
{
    lemma_mod_multiples_vanish(k, r, modulus());
}

/// Reducing the factors first does not change a product's residue.
pub proof fn lemma_mul_mod_reduce(a: int, b: int)
    ensures
        mul_mod(a % modulus(), b % modulus()) == mul_mod(a, b),
        mul_mod(a % modulus(), b) == mul_mod(a, b),
        mul_mod(a, b % modulus()) == mul_mod(a, b),
{
    lemma_mul_mod_noop_general(a, b, modulus());
}

/// Congruent factors give congruent products.
pub proof fn lemma_mul_congruent(a: int, b: int, c: int, d: int)
    requires
        congruent(a, c),
        congruent(b, d),
    ensures
        congruent(a * b, c * d),
        mul_mod(a, b) == (c * d) % modulus(),
        congruent(mul_mod(a, b), c * d),
{
    lemma_mul_mod_noop_general(a, b, modulus());
    lemma_mul_mod_noop_general(c, d, modulus());
    lemma_mod_twice(c * d, modulus());
}

/// Every integer is congruent to its residue.
pub proof fn lemma_residue_congruent(a: int)
    ensures
        congruent(a % modulus(), a),
        0 <= a % modulus() < modulus(),
{
    lemma_mod_twice(a, modulus());
}

/// Congruent summands give the same sum of residues.
pub proof fn lemma_add_congruent(a: int, b: int, c: int, d: int)
    requires
        congruent(a, c),
        congruent(b, d),
    ensures
        congruent(a + b, c + d),
        add_mod(a, b) == (c + d) % modulus(),
        congruent(add_mod(a, b), c + d),
{
    lemma_add_mod_noop(a, b, modulus());
    lemma_add_mod_noop(c, d, modulus());
    lemma_mod_twice(c + d, modulus());
}

/// Congruent operands give the same difference of residues.
pub proof fn lemma_sub_congruent(a: int, b: int, c: int, d: int)
    requires
        congruent(a, c),
        congruent(b, d),
    ensures
        congruent(a - b, c - d),
        sub_mod(a, b) == (c - d) % modulus(),
        congruent(sub_mod(a, b), c - d),
{
    lemma_sub_mod_noop(a, b, modulus());
    lemma_sub_mod_noop(c, d, modulus());
    lemma_mod_twice(c - d, modulus());
}

/// Adding a multiple of a congruent pair to a congruent pair keeps the
/// congruence.
pub proof fn lemma_combine_congruent(acc: int, acc2: int, k: int, u: int, u2: int)
    requires
        congruent(acc, acc2),
        congruent(u, u2),
    ensures
        congruent(acc + k * u, acc2 + k * u2),
{
    lemma_mul_mod_noop_general(k, u, modulus());
    lemma_mul_mod_noop_general(k, u2, modulus());
    lemma_add_congruent(acc, k * u, acc2, k * u2);
}

/// A factor may change places with the first factor of the product that it
/// multiplies.
pub proof fn lemma_mul_left_commute(x: int, y: int, z: int)
    ensures
        x * (y * z) == y * (x * z),
{
    lemma_mul_is_associative(x, y, z);
    lemma_mul_is_commutative(x, y);
    lemma_mul_is_associative(y, x, z);
}

/// Multiplication of residues is associative.
pub proof fn lemma_mul_mod_assoc(a: int, b: int, c: int)
    ensures
        mul_mod(mul_mod(a, b), c) == mul_mod(a, mul_mod(b, c)),
{
    lemma_mul_mod_reduce(a * b, c);
    lemma_mul_mod_reduce(a, b * c);
    lemma_mul_is_associative(a, b, c);
}

/// Reducing the base first does not change a power's residue.
pub proof fn lemma_pow_mod_reduce(a: int, e: nat)
    ensures
        pow_mod(a % modulus(), e) == pow_mod(a, e),
{
    lemma_pow_mod_noop(a, e, modulus());
}

/// The exponent splits over a product of powers.
pub proof fn lemma_pow_mod_adds(a: int, e1: nat, e2: nat)
    ensures
        pow_mod(a, e1 + e2) == mul_mod(pow_mod(a, e1), pow_mod(a, e2)),
{
    lemma_pow_adds(a, e1, e2);
    lemma_mul_mod_noop_general(pow(a, e1), pow(a, e2), modulus());
}

/// A power of a power multiplies the exponents.
pub proof fn lemma_pow_mod_multiplies(a: int, e1: nat, e2: nat)
    ensures
        pow_mod(pow_mod(a, e1), e2) == pow_mod(a, e1 * e2),
{
    lemma_pow_mod_noop(pow(a, e1), e2, modulus());
    lemma_pow_multiplies(a, e1, e2);
}

/// Squaring the base halves an even exponent.
pub proof fn lemma_pow_mod_square(a: int, e: nat)
    ensures
        pow_mod(mul_mod(a, a), e) == pow_mod(a, 2 * e),
{
    lemma_pow_mod_noop(a * a, e, modulus());
    lemma_square_is_pow2(a);
    lemma_pow_multiplies(a, 2, e);
}

/// One more factor raises the exponent by one.
pub proof fn lemma_pow_mod_step(a: int, e: nat)
    ensures
        pow_mod(a, e + 1) == mul_mod(a, pow_mod(a, e)),
{
    reveal(pow);
    lemma_mul_mod_noop_general(a, pow(a, e), modulus());
}

} // verus!
