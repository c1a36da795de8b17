use proptest::arbitrary::any;
use proptest::strategy::{Strategy, ValueTree};
use proptest::test_runner::TestRunner;
use stark_algebra::base::BaseElement;
use stark_algebra::cube::CubeExtension;
use stark_algebra::errors::DeserializationError;
use stark_algebra::modular::M;
use stark_algebra::quad::QuadExtension;
use stark_algebra::traits::FieldElement;

fn rand_word() -> u64 {
    let mut runner = TestRunner::default();
    any::<u64>().new_tree(&mut runner).unwrap().current()
}

fn rand_base() -> BaseElement {
    BaseElement(rand_word())
}

// MANUAL TESTS
// ================================================================================================

#[test]
fn add() {
    // identity
    let r: BaseElement = rand_base();
    assert_eq!(r, r + BaseElement::zero());

    // test addition within bounds
    assert_eq!(
        BaseElement::from(5u8),
        BaseElement::from(2u8) + BaseElement::from(3u8)
    );

    // test overflow
    let t = BaseElement::from(BaseElement::MODULUS - 1);
    assert_eq!(BaseElement::zero(), t + BaseElement::one());
    assert_eq!(BaseElement::one(), t + BaseElement::from(2u8));
}

#[test]
fn sub() {
    // identity
    let r: BaseElement = rand_base();
    assert_eq!(r, r - BaseElement::zero());

    // test subtraction within bounds
    assert_eq!(
        BaseElement::from(2u8),
        BaseElement::from(5u8) - BaseElement::from(3u8)
    );

    // test underflow
    let expected = BaseElement::from(BaseElement::MODULUS - 2);
    assert_eq!(expected, BaseElement::from(3u8) - BaseElement::from(5u8));
}

#[test]
fn neg() {
    assert_eq!(BaseElement::zero(), -BaseElement::zero());
    assert_eq!(BaseElement::from(M - 1), -BaseElement::one());

    let r: BaseElement = rand_base();
    assert_eq!(r, -(-r));
}

#[test]
fn mul() {
    // identity
    let r: BaseElement = rand_base();
    assert_eq!(BaseElement::zero(), r * BaseElement::zero());
    assert_eq!(r, r * BaseElement::one());

    // test multiplication within bounds
    assert_eq!(
        BaseElement::from(15u8),
        BaseElement::from(5u8) * BaseElement::from(3u8)
    );

    // test overflow
    let m = BaseElement::MODULUS;
    let t = BaseElement::from(m - 1);
    assert_eq!(BaseElement::one(), t * t);
    assert_eq!(BaseElement::from(m - 2), t * BaseElement::from(2u8));
    assert_eq!(BaseElement::from(m - 4), t * BaseElement::from(4u8));

    let t = (m + 1) / 2;
    assert_eq!(
        BaseElement::one(),
        BaseElement::from(t) * BaseElement::from(2u8)
    );
}

#[test]
fn exp() {
    let a = BaseElement::zero();
    assert_eq!(a.exp(0), BaseElement::one());
    assert_eq!(a.exp(1), BaseElement::zero());

    let a = BaseElement::one();
    assert_eq!(a.exp(0), BaseElement::one());
    assert_eq!(a.exp(1), BaseElement::one());
    assert_eq!(a.exp(3), BaseElement::one());

    let a: BaseElement = rand_base();
    assert_eq!(a.exp(3), a * a * a);
}

#[test]
fn inv() {
    // identity
    assert_eq!(BaseElement::one(), BaseElement::inv(BaseElement::one()));
    assert_eq!(BaseElement::zero(), BaseElement::inv(BaseElement::zero()));
}

#[test]
fn element_as_int() {
    let v = u64::MAX;
    let e = BaseElement::new(v);
    assert_eq!(v % M, e.as_int());
}

#[test]
fn equals() {
    let a = BaseElement::one();
    let b = BaseElement::new(M - 1) * BaseElement::new(M - 1);

    // elements are equal
    assert_eq!(a, b);
    assert_eq!(a.as_int(), b.as_int());
    assert_eq!(a.to_bytes(), b.to_bytes());

    // but their internal representation is not
    assert_ne!(a.0, b.0);
    assert_ne!(a.as_bytes(), b.as_bytes());
}

// ROOTS OF UNITY
// ------------------------------------------------------------------------------------------------

#[test]
fn get_root_of_unity() {
    let root_32 = BaseElement::get_root_of_unity(32);
    assert_eq!(BaseElement::two_adic_root_of_unity(), root_32);
    assert_eq!(BaseElement::one(), root_32.exp(1u64 << 32));

    let root_31 = BaseElement::get_root_of_unity(31);
    let expected = root_32.exp(2);
    assert_eq!(expected, root_31);
    assert_eq!(BaseElement::one(), root_31.exp(1u64 << 31));
}

// SERIALIZATION AND DESERIALIZATION
// ------------------------------------------------------------------------------------------------

#[test]
fn from_u128() {
    let v = u128::MAX;
    let e = BaseElement::from(v);
    assert_eq!((v % M as u128) as u64, e.as_int());
}

#[test]
fn try_from_slice() {
    let bytes = vec![1, 0, 0, 0, 0, 0, 0, 0];
    let result = BaseElement::try_from(bytes.as_slice());
    assert!(result.is_ok());
    assert_eq!(1, result.unwrap().as_int());

    let bytes = vec![1, 0, 0, 0, 0, 0, 0];
    let result = BaseElement::try_from(bytes.as_slice());
    assert!(result.is_err());

    let bytes = vec![1, 0, 0, 0, 0, 0, 0, 0, 0];
    let result = BaseElement::try_from(bytes.as_slice());
    assert!(result.is_err());

    let bytes = vec![255, 255, 255, 255, 255, 255, 255, 255];
    let result = BaseElement::try_from(bytes.as_slice());
    assert!(result.is_err());
}

#[test]
fn elements_as_bytes() {
    let source = vec![
        BaseElement::new(1),
        BaseElement::new(2),
        BaseElement::new(3),
        BaseElement::new(4),
    ];

    let mut expected = vec![];
    expected.extend_from_slice(&source[0].0.to_le_bytes());
    expected.extend_from_slice(&source[1].0.to_le_bytes());
    expected.extend_from_slice(&source[2].0.to_le_bytes());
    expected.extend_from_slice(&source[3].0.to_le_bytes());

    assert_eq!(expected, BaseElement::elements_as_bytes(&source));
}

#[test]
fn bytes_as_elements() {
    let elements = vec![
        BaseElement::new(1),
        BaseElement::new(2),
        BaseElement::new(3),
        BaseElement::new(4),
    ];

    let mut bytes = vec![];
    bytes.extend_from_slice(&elements[0].0.to_le_bytes());
    bytes.extend_from_slice(&elements[1].0.to_le_bytes());
    bytes.extend_from_slice(&elements[2].0.to_le_bytes());
    bytes.extend_from_slice(&elements[3].0.to_le_bytes());
    bytes.extend_from_slice(&BaseElement::new(5).0.to_le_bytes());

    let result = BaseElement::bytes_as_elements(&bytes[..32]);
    assert!(result.is_ok());
    assert_eq!(elements, result.unwrap());

    let result = BaseElement::bytes_as_elements(&bytes[..33]);
    assert!(matches!(result, Err(DeserializationError::InvalidValue(_))));

    let result = BaseElement::bytes_as_elements(&bytes[1..33]);
    assert!(matches!(result, Err(DeserializationError::InvalidValue(_))));
}

// INITIALIZATION
// ------------------------------------------------------------------------------------------------

#[test]
fn zeroed_vector() {
    let result = BaseElement::zeroed_vector(4);
    assert_eq!(4, result.len());
    for element in result.into_iter() {
        assert_eq!(BaseElement::zero(), element);
    }
}

// QUADRATIC EXTENSION
// ------------------------------------------------------------------------------------------------
#[test]
fn quad_mul() {
    // identity
    let r: QuadExtension = QuadExtension::new(rand_base(), rand_base());
    assert_eq!(QuadExtension::zero(), r * QuadExtension::zero());
    assert_eq!(r, r * QuadExtension::one());

    // test multiplication within bounds
    let a = QuadExtension::new(BaseElement::new(3), BaseElement::one());
    let b = QuadExtension::new(BaseElement::new(4), BaseElement::new(2));
    let expected = QuadExtension::new(BaseElement::new(8), BaseElement::new(12));
    assert_eq!(expected, a * b);

    // test multiplication with overflow
    let m = BaseElement::MODULUS;
    let a = QuadExtension::new(BaseElement::new(3), BaseElement::new(m - 1));
    let b = QuadExtension::new(BaseElement::new(m - 3), BaseElement::new(5));
    let expected = QuadExtension::new(BaseElement::one(), BaseElement::new(13));
    assert_eq!(expected, a * b);

    let a = QuadExtension::new(BaseElement::new(3), BaseElement::new(m - 1));
    let b = QuadExtension::new(BaseElement::new(10), BaseElement::new(m - 2));
    let expected = QuadExtension::new(
        BaseElement::new(26),
        BaseElement::new(18446744069414584307),
    );
    assert_eq!(expected, a * b);
}

#[test]
fn quad_conjugate() {
    let m = BaseElement::MODULUS;

    let a = QuadExtension::new(BaseElement::new(m - 1), BaseElement::new(3));
    let expected = QuadExtension::new(
        BaseElement::new(2),
        BaseElement::new(18446744069414584318),
    );
    assert_eq!(expected, a.conjugate());

    let a = QuadExtension::new(BaseElement::new(m - 3), BaseElement::new(m - 2));
    let expected = QuadExtension::new(
        BaseElement::new(18446744069414584316),
        BaseElement::new(2),
    );
    assert_eq!(expected, a.conjugate());

    let a = QuadExtension::new(BaseElement::new(4), BaseElement::new(7));
    let expected = QuadExtension::new(
        BaseElement::new(11),
        BaseElement::new(18446744069414584314),
    );
    assert_eq!(expected, a.conjugate());
}

// CUBIC EXTENSION
// ------------------------------------------------------------------------------------------------
#[test]
fn cube_mul() {
    // identity
    let r: CubeExtension = CubeExtension::new(rand_base(), rand_base(), rand_base());
    assert_eq!(CubeExtension::zero(), r * CubeExtension::zero());
    assert_eq!(r, r * CubeExtension::one());

    // test multiplication within bounds
    let a = CubeExtension::new(
        BaseElement::new(3),
        BaseElement::new(5),
        BaseElement::new(2),
    );
    let b = CubeExtension::new(
        BaseElement::new(320),
        BaseElement::new(68),
        BaseElement::new(3),
    );
    let expected = CubeExtension::new(
        BaseElement::new(1111),
        BaseElement::new(1961),
        BaseElement::new(995),
    );
    assert_eq!(expected, a * b);

    // test multiplication with overflow
    let a = CubeExtension::new(
        BaseElement::new(18446744069414584267),
        BaseElement::new(18446744069414584309),
        BaseElement::new(9223372034707292160),
    );
    let b = CubeExtension::new(
        BaseElement::new(18446744069414584101),
        BaseElement::new(420),
        BaseElement::new(18446744069414584121),
    );
    let expected = CubeExtension::new(
        BaseElement::new(14070),
        BaseElement::new(18446744069414566571),
        BaseElement::new(5970),
    );
    assert_eq!(expected, a * b);

    let a = CubeExtension::new(
        BaseElement::new(18446744069414584266),
        BaseElement::new(18446744069412558094),
        BaseElement::new(5268562),
    );
    let b = CubeExtension::new(
        BaseElement::new(18446744069414583589),
        BaseElement::new(1226),
        BaseElement::new(5346),
    );
    let expected = CubeExtension::new(
        BaseElement::new(18446744065041672051),
        BaseElement::new(25275910656),
        BaseElement::new(21824696736),
    );
    assert_eq!(expected, a * b);
}
