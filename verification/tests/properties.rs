use num_bigint::BigUint;
use proptest::arbitrary::any;
use proptest::test_runner::TestRunner;
use stark_algebra::base::{mod_reduce, BaseElement};
use stark_algebra::cube::CubeExtension;
use stark_algebra::modular::M;
use stark_algebra::quad::QuadExtension;
use stark_algebra::traits::{exp, FieldElement};

fn for_all_words(check: fn(u64)) {
    let mut runner = TestRunner::default();
    runner
        .run(&any::<u64>(), |a| {
            check(a);
            Ok(())
        })
        .unwrap();
    for a in [0, 1, 2, M - 1, M, M + 1, u64::MAX] {
        check(a);
    }
}

fn for_all_pairs(check: fn(u64, u64)) {
    let mut runner = TestRunner::default();
    runner
        .run(&(any::<u64>(), any::<u64>()), |(a, b)| {
            check(a, b);
            Ok(())
        })
        .unwrap();
    for a in [0, 1, M - 1, M, u64::MAX] {
        for b in [0, 1, M - 1, M, u64::MAX] {
            check(a, b);
        }
    }
}

fn for_all_triples(check: fn(u64, u64, u64)) {
    let mut runner = TestRunner::default();
    runner
        .run(&(any::<u64>(), any::<u64>(), any::<u64>()), |(a, b, c)| {
            check(a, b, c);
            Ok(())
        })
        .unwrap();
}

#[test]
fn add_proptest() {
    for_all_pairs(|a, b| {
        let v1 = BaseElement::from(a);
        let v2 = BaseElement::from(b);
        let result = v1 + v2;

        let expected = (((a as u128) + (b as u128)) % (M as u128)) as u64;
        assert_eq!(expected, result.as_int());
    });
}

#[test]
fn add_of_stored_words() {
    for_all_pairs(|a, b| {
        let result = BaseElement(a) + BaseElement(b);
        let expected = (((a as u128) + (b as u128)) % (M as u128)) as u64;
        assert_eq!(expected, result.as_int());
    });
}

#[test]
fn sub_proptest() {
    for_all_pairs(|a, b| {
        let v1 = BaseElement::from(a);
        let v2 = BaseElement::from(b);
        let result = v1 - v2;

        let a = a % M;
        let b = b % M;
        let expected = if a < b { M - b + a } else { a - b };

        assert_eq!(expected, result.as_int());
    });
}

#[test]
fn sub_of_stored_words() {
    for_all_pairs(|a, b| {
        let result = BaseElement(a) - BaseElement(b);
        let a = a % M;
        let b = b % M;
        let expected = if a < b { M - b + a } else { a - b };
        assert_eq!(expected, result.as_int());
    });
}

#[test]
fn neg_proptest() {
    for_all_words(|a| {
        let v = BaseElement::from(a);
        let expected = (M - (a % M)) % M;

        assert_eq!(expected, (-v).as_int());
        assert_eq!(expected, (-BaseElement(a)).as_int());
        assert_eq!(BaseElement::zero(), v + (-v));
    });
}

#[test]
fn mul_proptest() {
    for_all_pairs(|a, b| {
        let v1 = BaseElement::from(a);
        let v2 = BaseElement::from(b);
        let result = v1 * v2;

        let expected = (((a as u128) * (b as u128)) % M as u128) as u64;
        assert_eq!(expected, result.as_int());
        assert_eq!(expected, (BaseElement(a) * BaseElement(b)).as_int());
    });
}

#[test]
fn mod_reduce_keeps_the_residue() {
    for_all_pairs(|a, b| {
        let x = ((a as u128) << 64) | b as u128;
        assert_eq!((x % M as u128) as u64, mod_reduce(x) % M);
    });
    assert_eq!(0, mod_reduce(0));
    assert_eq!(M + 1, mod_reduce((M - 1) as u128 * (M - 1) as u128));
    assert_eq!((u128::MAX % M as u128) as u64, mod_reduce(u128::MAX) % M);
}

#[test]
fn double_proptest() {
    for_all_words(|x| {
        let v = BaseElement::from(x);
        let result = v.double();

        let expected = (((x as u128) * 2) % M as u128) as u64;
        assert_eq!(expected, result.as_int());
    });
}

#[test]
fn exp_proptest() {
    for_all_pairs(|a, b| {
        let result = BaseElement::from(a).exp(b);

        let b = BigUint::from(b);
        let m = BigUint::from(M);
        let expected = BigUint::from(a).modpow(&b, &m).to_u64_digits();
        let expected = if expected.is_empty() { 0 } else { expected[0] };
        assert_eq!(expected, result.as_int());
    });
}

#[test]
fn inv_proptest() {
    for_all_words(|a| {
        let a = BaseElement::from(a);
        let b = a.inv();

        let expected = if a == BaseElement::zero() {
            BaseElement::zero()
        } else {
            BaseElement::one()
        };
        assert_eq!(expected, a * b);
        assert_eq!(a.exp(M - 2), b);
    });
}

#[test]
fn element_as_int_proptest() {
    for_all_words(|a| {
        let e = BaseElement::new(a);
        assert_eq!(a % M, e.as_int());
        assert_eq!(a % M, BaseElement(a).as_int());
    });
}

#[test]
fn from_u128_proptest() {
    for_all_pairs(|a, b| {
        let v = ((a as u128) << 64) | b as u128;
        let e = BaseElement::from(v);
        assert_eq!((v % M as u128) as u64, e.as_int());
    });
}

// QUADRATIC EXTENSION
// --------------------------------------------------------------------------------------------
#[test]
fn quad_mul_inv_proptest() {
    for_all_pairs(|a0, a1| {
        let a = QuadExtension::new(BaseElement::from(a0), BaseElement::from(a1));
        let b = a.inv();

        let expected = if a == QuadExtension::zero() {
            QuadExtension::zero()
        } else {
            QuadExtension::one()
        };
        assert_eq!(expected, a * b);
    });
}

#[test]
fn quad_operations() {
    let a = QuadExtension::new(BaseElement::new(3), BaseElement::new(M - 1));
    let b = QuadExtension::new(BaseElement::new(M - 3), BaseElement::new(5));
    assert_eq!(
        QuadExtension::new(BaseElement::new(0), BaseElement::new(4)),
        a + b
    );
    assert_eq!(
        QuadExtension::new(BaseElement::new(6), BaseElement::new(M - 6)),
        a - b
    );
    assert_eq!(
        QuadExtension::new(BaseElement::new(M - 3), BaseElement::new(1)),
        -a
    );
    assert_eq!(
        QuadExtension::new(BaseElement::new(6), BaseElement::new(M - 2)),
        a.double()
    );
    assert_eq!(a * a, a.square());
    assert_eq!(a * a * a, a.exp(3));
    assert_eq!(QuadExtension::one(), a.exp(0));
    assert_eq!(QuadExtension::one(), QuadExtension::zero().exp(0));
    assert_eq!(
        QuadExtension::new(BaseElement::new(6), BaseElement::new(M - 2)),
        a.mul_base(BaseElement::new(2))
    );
    // the norm lies in the base field: 9 - 3 + 2
    assert_eq!(
        QuadExtension::new(BaseElement::new(8), BaseElement::zero()),
        a * a.conjugate()
    );
    assert_eq!(a, a.conjugate().conjugate());
}

// CUBIC EXTENSION
// --------------------------------------------------------------------------------------------
#[test]
fn cube_mul_inv_proptest() {
    for_all_triples(|a0, a1, a2| {
        let a = CubeExtension::new(
            BaseElement::from(a0),
            BaseElement::from(a1),
            BaseElement::from(a2),
        );
        let b = a.inv();

        let expected = if a == CubeExtension::zero() {
            CubeExtension::zero()
        } else {
            CubeExtension::one()
        };
        assert_eq!(expected, a * b);
    });
    assert_eq!(CubeExtension::zero(), CubeExtension::zero().inv());
}

#[test]
fn cube_operations() {
    let a = CubeExtension::new(BaseElement::new(3), BaseElement::new(5), BaseElement::new(2));
    let b = CubeExtension::new(BaseElement::new(M - 3), BaseElement::new(1), BaseElement::new(M - 2));
    assert_eq!(
        CubeExtension::new(BaseElement::zero(), BaseElement::new(6), BaseElement::zero()),
        a + b
    );
    assert_eq!(
        CubeExtension::new(BaseElement::new(6), BaseElement::new(4), BaseElement::new(4)),
        a - b
    );
    assert_eq!(
        CubeExtension::new(BaseElement::new(M - 3), BaseElement::new(M - 5), BaseElement::new(M - 2)),
        -a
    );
    assert_eq!(
        CubeExtension::new(BaseElement::new(6), BaseElement::new(10), BaseElement::new(4)),
        a.double()
    );
    assert_eq!(a * a, a.square());
    assert_eq!(a * a * a, a.exp(3));
    assert_eq!(CubeExtension::one(), a.exp(0));
    assert_eq!(
        CubeExtension::new(BaseElement::new(9), BaseElement::new(15), BaseElement::new(6)),
        a.mul_base(BaseElement::new(3))
    );
    // the adjugate: (9 + 12 + 4 - 25 - 10, 4 - 15, 25 - 6 - 4)
    assert_eq!(
        CubeExtension::new(BaseElement::new(M - 10), BaseElement::new(M - 11), BaseElement::new(15)),
        a.adjugate()
    );
    // the norm lies in the base field: 3 * (-10) + 5 * 15 + 2 * (-11)
    assert_eq!(
        CubeExtension::new(BaseElement::new(23), BaseElement::zero(), BaseElement::zero()),
        a * a.adjugate()
    );
}

#[test]
fn cube_conjugate_is_the_frobenius_map() {
    let x = CubeExtension::new(BaseElement::zero(), BaseElement::one(), BaseElement::zero());
    assert_eq!(
        CubeExtension::new(
            BaseElement::new(10615703402128488253),
            BaseElement::new(10050274602728160328),
            BaseElement::new(11746561000929144102),
        ),
        x.conjugate()
    );
    let a = CubeExtension::new(BaseElement::new(3), BaseElement::new(5), BaseElement::new(2));
    assert_eq!(a.exp(M), a.conjugate());
    assert_eq!(a, a.conjugate().conjugate().conjugate());
    assert_eq!(a.adjugate(), a.conjugate() * a.conjugate().conjugate());
    let b = CubeExtension::new(BaseElement::new(9), BaseElement::zero(), BaseElement::zero());
    assert_eq!(b, b.conjugate());
}

// LAWS ON CONCRETE VALUES
// --------------------------------------------------------------------------------------------
#[test]
fn field_identities() {
    for_all_words(|w| {
        let a = BaseElement(w);
        assert_eq!(a, a + BaseElement::zero());
        assert_eq!(a, a - BaseElement::zero());
        assert_eq!(a, a * BaseElement::one());
        assert_eq!(BaseElement::zero(), a * BaseElement::zero());
        assert_eq!(a, -(-a));
        assert_eq!(BaseElement::zero(), a + (-a));
        assert_eq!(BaseElement::one(), a.exp(0));
        assert_eq!(BaseElement::one(), BaseElement::one().exp(w));
        assert_eq!(a, a.conjugate());
        assert_eq!(a * a, a.square());
    });
    assert_eq!(BaseElement::zero(), BaseElement::zero().exp(1));
}

#[test]
fn generic_exp_agrees() {
    for_all_pairs(|a, b| {
        assert_eq!(BaseElement(a).exp(b), exp(BaseElement(a), b));
    });
}

#[test]
fn roots_of_unity_have_their_order() {
    assert_eq!(BaseElement::one(), BaseElement::get_root_of_unity(0));
    assert_eq!(BaseElement::new(M - 1), BaseElement::get_root_of_unity(1));
    assert_eq!(
        BaseElement::new(1753635133440165772),
        BaseElement::get_root_of_unity(32)
    );
    assert_eq!(
        BaseElement::new(7).exp((M - 1) >> 32),
        BaseElement::get_root_of_unity(32)
    );
    for n in 1..=32u32 {
        let root = BaseElement::get_root_of_unity(n);
        assert_eq!(BaseElement::one(), root.exp(1u64 << n));
        assert_eq!(BaseElement::new(M - 1), root.exp(1u64 << (n - 1)));
        assert_eq!(BaseElement::get_root_of_unity(n - 1), root * root);
    }
}

#[test]
fn equal_values_in_different_words() {
    let a = BaseElement(5);
    let b = BaseElement(M + 5);
    assert_eq!(a, b);
    assert_eq!(a.as_int(), b.as_int());
    assert_eq!(a.to_bytes(), b.to_bytes());
    assert_ne!(a.0, b.0);
    assert_ne!(a.as_bytes(), b.as_bytes());
    assert_eq!(
        QuadExtension::new(a, b),
        QuadExtension::new(b, a)
    );
    assert_eq!(
        CubeExtension::new(a, b, a),
        CubeExtension::new(b, a, b)
    );
    assert_ne!(BaseElement(5), BaseElement(6));
}
