//! Laws of the base field and of its byte encoding.

use crate::base::{reduced_word, BaseElement};
use crate::encoding::{
    bytes_elements, bytes_word, elements_bytes, lemma_word_round_trip, word_bytes,
};
use crate::modular::{
    add_mod, lemma_add_congruent, lemma_mul_congruent, lemma_pow_mod_reduce,
    lemma_residue_congruent, lemma_sub_congruent, modulus, mul_mod, neg_mod, pow_mod, sub_mod,
};
use crate::traits::FieldElement;
use vstd::arithmetic::power::{lemma1_pow, lemma_pow0, lemma_pow1};
use vstd::prelude::*;

verus! {

/// Zero and one are neutral for addition, subtraction and multiplication,
/// zero absorbs in multiplication, negation undoes itself and gives the
/// additive inverse, the zeroth power of every element is one, the first
/// power of zero is zero, and every power of one is one.
pub proof fn lemma_field_identities(a: BaseElement, n: nat)
    ensures
        add_mod(a.value(), 0) == a.value(),
        sub_mod(a.value(), 0) == a.value(),
        mul_mod(a.value(), 1) == a.value(),
        mul_mod(a.value(), 0) == 0,
        neg_mod(neg_mod(a.value())) == a.value(),
        add_mod(a.value(), neg_mod(a.value())) == 0,
        pow_mod(a.value(), 0) == 1,
        pow_mod(0, 1) == 0,
        pow_mod(1, n) == 1,
{
    let v = a.value();
    assert(v * 1 == v && v * 0 == 0);
    lemma_pow0(v);
    lemma_pow1(0);
    lemma1_pow(n);
}

/// Addition, subtraction, multiplication, doubling and exponentiation of
/// the elements made from two 64-bit integers give what the same operations
/// on the integers give, reduced modulo the field modulus.
pub proof fn lemma_matches_integer_arithmetic(a: u64, b: u64)
    ensures
        add_mod(BaseElement(a).value(), BaseElement(b).value()) == (a + b) % modulus(),
        sub_mod(BaseElement(a).value(), BaseElement(b).value()) == (a - b) % modulus(),
        mul_mod(BaseElement(a).value(), BaseElement(b).value()) == (a * b) % modulus(),
        add_mod(BaseElement(a).value(), BaseElement(a).value()) == (2 * a) % modulus(),
        pow_mod(BaseElement(a).value(), b as nat) == vstd::arithmetic::power::pow(
            a as int,
            b as nat,
        ) % modulus(),
{
    lemma_residue_congruent(a as int);
    lemma_residue_congruent(b as int);
    lemma_add_congruent(BaseElement(a).value(), BaseElement(b).value(), a as int, b as int);
    lemma_sub_congruent(BaseElement(a).value(), BaseElement(b).value(), a as int, b as int);
    lemma_mul_congruent(BaseElement(a).value(), BaseElement(b).value(), a as int, b as int);
    lemma_add_congruent(BaseElement(a).value(), BaseElement(a).value(), a as int, a as int);
    lemma_pow_mod_reduce(a as int, b as nat);
}

/// Elements of one value need not be stored alike: the square of `-1` has
/// the value one and is stored as `M + 1`.
pub proof fn lemma_equal_values_in_different_words()
    ensures
        reduced_word((modulus() - 1) * (modulus() - 1)) == modulus() + 1,
        BaseElement((modulus() + 1) as u64).value() == BaseElement(1).value(),
{
    let x = (modulus() - 1) * (modulus() - 1);
    assert(x == 340282366762482138453292676318389862400) by (nonlinear_arith)
        requires
            x == (modulus() - 1) * (modulus() - 1),
            modulus() == 0xFFFF_FFFF_0000_0001,
    ;
    assert(x % 0x1_0000_0000_0000_0000 == 0);
    assert(x / 0x1_0000_0000_0000_0000 == 18446744065119617025);
    assert(x / 0x1_0000_0000_0000_0000_0000_0000 == 4294967294);
    assert(18446744065119617025int % 0x1_0000_0000 == 1);
}

/// Decoding the bytes that a sequence of elements was encoded to gives the
/// sequence back, stored words included.
pub proof fn lemma_encoding_round_trip(elements: Seq<BaseElement>)
    ensures
        elements_bytes(elements).len() == 8 * elements.len(),
        bytes_elements(elements_bytes(elements)) == elements,
{
    let bytes = elements_bytes(elements);
    let decoded = bytes_elements(bytes);
    assert(decoded.len() == elements.len());
    assert forall|i: int| 0 <= i < elements.len() implies decoded[i] == elements[i] by {
        let x = elements[i].0;
        lemma_word_round_trip(x);
        assert forall|k: int| 0 <= k < 8 implies bytes[8 * i + k] == word_bytes(x)[k] by {
            assert((8 * i + k) / 8 == i);
            assert((8 * i + k) % 8 == k);
        }
        assert(bytes_word(bytes, 8 * i) == bytes_word(word_bytes(x), 0));
    }
    assert(decoded =~= elements);
}

} // verus!
