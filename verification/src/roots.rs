//! Roots of unity of two-power order.

use crate::base::BaseElement;
use crate::generators::{
    has_order, is_field_modulus, lemma_exact_order, lemma_product_of_twos, lemma_two_is_field,
    pow_mod_n, twos,
};
use crate::modular::{
    lemma_pow_mod_multiplies, lemma_pow_mod_square, modulus, mul_mod, pow_mod,
};
use vstd::arithmetic::power::lemma_pow1;
use vstd::arithmetic::power2::{lemma2_to64, lemma_pow2_adds, lemma_pow2_unfold, pow2};
use crate::traits::FieldElement;
use vstd::prelude::*;

verus! {

/// A root of unity of order `2^32`, the largest two-power order in the field.
pub const TWO_ADIC_ROOT: u64 = 1753635133440165772;

/// The value of the root of unity of order `2^n` that the field hands out,
/// for `n <= 32`: the root of order `2^32` raised to `2^(32 - n)`.
pub open spec fn root_of_unity_value(n: nat) -> int
    recommends
        n <= 32,
{
    pow_mod(TWO_ADIC_ROOT as int, pow2((32 - n) as nat))
}

/// `a` squared `k` times in a row.
pub open spec fn repeated_square(a: int, k: nat) -> int
    decreases k,
{
    if k == 0 {
        a % modulus()
    } else {
        mul_mod(repeated_square(a, (k - 1) as nat), repeated_square(a, (k - 1) as nat))
    }
}

/// Squaring `k` times raises to the power `2^k`.
pub proof fn lemma_repeated_square(a: int, k: nat)
    ensures
        repeated_square(a, k) == pow_mod(a, pow2(k)),
    decreases k,
{
    if k == 0 {
        lemma2_to64();
        lemma_pow1(a);
    } else {
        let j = (k - 1) as nat;
        lemma_repeated_square(a, j);
        lemma_pow2_unfold(k);
        lemma_pow_mod_square(pow_mod(a, pow2(j)), 1);
        lemma_pow1(mul_mod(pow_mod(a, pow2(j)), pow_mod(a, pow2(j))));
        lemma_pow_mod_multiplies(a, pow2(j), 2);
    }
}

/// The root of order `2^32` reaches `-1` after 31 squarings and `1` after 32.
pub proof fn lemma_two_adic_root_squarings()
    ensures
        repeated_square(TWO_ADIC_ROOT as int, 31) == modulus() - 1,
        repeated_square(TWO_ADIC_ROOT as int, 32) == 1,
{
    reveal_with_fuel(repeated_square, 2);
    assert(repeated_square(TWO_ADIC_ROOT as int, 0) == 1753635133440165772);
    assert(mul_mod(1753635133440165772, 1753635133440165772) == 4614640910117430873);
    assert(repeated_square(TWO_ADIC_ROOT as int, 1) == 4614640910117430873);
    assert(mul_mod(4614640910117430873, 4614640910117430873) == 9123114210336311365);
    assert(repeated_square(TWO_ADIC_ROOT as int, 2) == 9123114210336311365);
    assert(mul_mod(9123114210336311365, 9123114210336311365) == 16116352524544190054);
    assert(repeated_square(TWO_ADIC_ROOT as int, 3) == 16116352524544190054);
    assert(mul_mod(16116352524544190054, 16116352524544190054) == 6414415596519834757);
    assert(repeated_square(TWO_ADIC_ROOT as int, 4) == 6414415596519834757);
    assert(mul_mod(6414415596519834757, 6414415596519834757) == 1213594585890690845);
    assert(repeated_square(TWO_ADIC_ROOT as int, 5) == 1213594585890690845);
    assert(mul_mod(1213594585890690845, 1213594585890690845) == 17096174751763063430);
    assert(repeated_square(TWO_ADIC_ROOT as int, 6) == 17096174751763063430);
    assert(mul_mod(17096174751763063430, 17096174751763063430) == 5456943929260765144);
    assert(repeated_square(TWO_ADIC_ROOT as int, 7) == 5456943929260765144);
    assert(mul_mod(5456943929260765144, 5456943929260765144) == 9713644485405565297);
    assert(repeated_square(TWO_ADIC_ROOT as int, 8) == 9713644485405565297);
    assert(mul_mod(9713644485405565297, 9713644485405565297) == 16905767614792059275);
    assert(repeated_square(TWO_ADIC_ROOT as int, 9) == 16905767614792059275);
    assert(mul_mod(16905767614792059275, 16905767614792059275) == 5416168637041100469);
    assert(repeated_square(TWO_ADIC_ROOT as int, 10) == 5416168637041100469);
    assert(mul_mod(5416168637041100469, 5416168637041100469) == 17654865857378133588);
    assert(repeated_square(TWO_ADIC_ROOT as int, 11) == 17654865857378133588);
    assert(mul_mod(17654865857378133588, 17654865857378133588) == 3511170319078647661);
    assert(repeated_square(TWO_ADIC_ROOT as int, 12) == 3511170319078647661);
    assert(mul_mod(3511170319078647661, 3511170319078647661) == 18146160046829613826);
    assert(repeated_square(TWO_ADIC_ROOT as int, 13) == 18146160046829613826);
    assert(mul_mod(18146160046829613826, 18146160046829613826) == 9306717745644682924);
    assert(repeated_square(TWO_ADIC_ROOT as int, 14) == 9306717745644682924);
    assert(mul_mod(9306717745644682924, 9306717745644682924) == 12380578893860276750);
    assert(repeated_square(TWO_ADIC_ROOT as int, 15) == 12380578893860276750);
    assert(mul_mod(12380578893860276750, 12380578893860276750) == 6115771955107415310);
    assert(repeated_square(TWO_ADIC_ROOT as int, 16) == 6115771955107415310);
    assert(mul_mod(6115771955107415310, 6115771955107415310) == 17776499369601055404);
    assert(repeated_square(TWO_ADIC_ROOT as int, 17) == 17776499369601055404);
    assert(mul_mod(17776499369601055404, 17776499369601055404) == 16207902636198568418);
    assert(repeated_square(TWO_ADIC_ROOT as int, 18) == 16207902636198568418);
    assert(mul_mod(16207902636198568418, 16207902636198568418) == 1532612707718625687);
    assert(repeated_square(TWO_ADIC_ROOT as int, 19) == 1532612707718625687);
    assert(mul_mod(1532612707718625687, 1532612707718625687) == 17492915097719143606);
    assert(repeated_square(TWO_ADIC_ROOT as int, 20) == 17492915097719143606);
    assert(mul_mod(17492915097719143606, 17492915097719143606) == 455906449640507599);
    assert(repeated_square(TWO_ADIC_ROOT as int, 21) == 455906449640507599);
    assert(mul_mod(455906449640507599, 455906449640507599) == 11353340290879379826);
    assert(repeated_square(TWO_ADIC_ROOT as int, 22) == 11353340290879379826);
    assert(mul_mod(11353340290879379826, 11353340290879379826) == 1803076106186727246);
    assert(repeated_square(TWO_ADIC_ROOT as int, 23) == 1803076106186727246);
    assert(mul_mod(1803076106186727246, 1803076106186727246) == 13797081185216407910);
    assert(repeated_square(TWO_ADIC_ROOT as int, 24) == 13797081185216407910);
    assert(mul_mod(13797081185216407910, 13797081185216407910) == 17870292113338400769);
    assert(repeated_square(TWO_ADIC_ROOT as int, 25) == 17870292113338400769);
    assert(mul_mod(17870292113338400769, 17870292113338400769) == 549755813888);
    assert(repeated_square(TWO_ADIC_ROOT as int, 26) == 549755813888);
    assert(mul_mod(549755813888, 549755813888) == 70368744161280);
    assert(repeated_square(TWO_ADIC_ROOT as int, 27) == 70368744161280);
    assert(mul_mod(70368744161280, 70368744161280) == 17293822564807737345);
    assert(repeated_square(TWO_ADIC_ROOT as int, 28) == 17293822564807737345);
    assert(mul_mod(17293822564807737345, 17293822564807737345) == 18446744069397807105);
    assert(repeated_square(TWO_ADIC_ROOT as int, 29) == 18446744069397807105);
    assert(mul_mod(18446744069397807105, 18446744069397807105) == 281474976710656);
    assert(repeated_square(TWO_ADIC_ROOT as int, 30) == 281474976710656);
    assert(mul_mod(281474976710656, 281474976710656) == 18446744069414584320);
    assert(repeated_square(TWO_ADIC_ROOT as int, 31) == 18446744069414584320);
    assert(mul_mod(18446744069414584320, 18446744069414584320) == 1);
    assert(repeated_square(TWO_ADIC_ROOT as int, 32) == 1);
}

/// The root handed out for order `2^n` has that order exactly: its `2^n`-th
/// power is one and, for `n >= 1`, its `2^(n-1)`-th power is `-1`. The root
/// for order `2^(n-1)` is the square of the root for order `2^n`.
pub proof fn lemma_root_of_unity_order(n: nat)
    requires
        n <= 32,
    ensures
        pow_mod(root_of_unity_value(n), pow2(n)) == 1,
        n >= 1 ==> pow_mod(root_of_unity_value(n), pow2((n - 1) as nat)) == modulus() - 1,
        n >= 1 ==> root_of_unity_value((n - 1) as nat) == mul_mod(
            root_of_unity_value(n),
            root_of_unity_value(n),
        ),
        root_of_unity_value(0) == 1,
        root_of_unity_value(32) == TWO_ADIC_ROOT,
{
    let g = TWO_ADIC_ROOT as int;
    let m = (32 - n) as nat;
    lemma_two_adic_root_squarings();
    lemma_repeated_square(g, 31);
    lemma_repeated_square(g, 32);
    lemma_pow_mod_multiplies(g, pow2(m), pow2(n));
    lemma_pow2_adds(m, n);
    lemma2_to64();
    lemma_pow1(g);
    if n >= 1 {
        let j = (n - 1) as nat;
        lemma_pow_mod_multiplies(g, pow2(m), pow2(j));
        lemma_pow2_adds(m, j);
        lemma_pow2_unfold(m + 1);
        lemma_pow_mod_square(pow_mod(g, pow2(m)), 1);
        lemma_pow1(mul_mod(pow_mod(g, pow2(m)), pow_mod(g, pow2(m))));
        lemma_pow_mod_multiplies(g, pow2(m), 2);
    }
}

/// No positive exponent below `2^n` gives one as a power of the root handed
/// out for order `2^n`.
pub proof fn lemma_root_of_unity_exact_order(n: nat, d: nat)
    requires
        n <= 32,
        0 < d < pow2(n),
    ensures
        pow_mod(root_of_unity_value(n), d) != 1,
{
    lemma2_to64();
    if n >= 1 {
        lemma_root_of_unity_order(n);
        lemma_product_of_twos(n);
        lemma_two_is_field();
        lemma_pow2_unfold(n);
        let root = root_of_unity_value(n);
        let half = pow2((n - 1) as nat);
        assert(pow2(n) as int / 2 == half);
        assert(pow_mod_n(root, pow2(n), modulus()) == 1);
        assert(pow_mod_n(root, half, modulus()) != 1);
        assert forall|i: int| 0 <= i < twos(n).len() implies is_field_modulus(
            #[trigger] twos(n)[i],
        ) && pow_mod_n(root, (pow2(n) as int / twos(n)[i]) as nat, modulus()) != 1 by {
            assert(twos(n)[i] == 2);
        }
        assert(has_order(root_of_unity_value(n), modulus(), pow2(n) as int, twos(n)));
        if pow_mod(root_of_unity_value(n), d) == 1 {
            lemma_exact_order(root_of_unity_value(n), modulus(), pow2(n), twos(n), d);
        }
    }
}

impl BaseElement {
    /// Returns the root of unity of order `2^32`.
    pub fn two_adic_root_of_unity() -> (r: BaseElement)
        ensures
            r.0 == TWO_ADIC_ROOT,
            r.value() == root_of_unity_value(32),
    {
        proof {
            lemma_root_of_unity_order(32);
        }
        BaseElement(TWO_ADIC_ROOT)
    }

    /// Returns a root of unity of order `2^n`, obtained from the root of order
    /// `2^32` by squaring it `32 - n` times. For `n = 0` this is one.
    pub fn get_root_of_unity(n: u32) -> (r: BaseElement)
        requires
            n <= 32,
        ensures
            r.value() == root_of_unity_value(n as nat),
            n == 0 ==> r.value() == 1,
    {
        let mut r: BaseElement = BaseElement::two_adic_root_of_unity();
        let mut i: u32 = 32;
        while i > n
            invariant
                n <= i <= 32,
                r.value() == root_of_unity_value(i as nat),
            decreases i,
        {
            proof {
                lemma_root_of_unity_order(i as nat);
            }
            r = r.square();
            i = i - 1;
        }
        proof {
            lemma_root_of_unity_order(0);
        }
        r
    }
}

} // verus!
