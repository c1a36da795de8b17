use stark_algebra::base::BaseElement;
use stark_algebra::cube::CubeExtension;
use stark_algebra::encoding::{decode_elements, validate_layout, word_from_bytes, word_to_bytes};
use stark_algebra::errors::{DeserializationError, Reason};
use stark_algebra::modular::M;
use stark_algebra::quad::QuadExtension;

#[test]
fn word_bytes_are_little_endian() {
    assert_eq!(
        vec![0x08, 0x07, 0x06, 0x05, 0x04, 0x03, 0x02, 0x01],
        word_to_bytes(0x0102_0304_0506_0708)
    );
    assert_eq!(u64::MAX.to_le_bytes().to_vec(), word_to_bytes(u64::MAX));
    assert_eq!(vec![0u8; 8], word_to_bytes(0));
}

#[test]
fn word_from_bytes_reads_at_the_offset() {
    let bytes = vec![0xAA, 0x08, 0x07, 0x06, 0x05, 0x04, 0x03, 0x02, 0x01, 0xBB];
    assert_eq!(0x0102_0304_0506_0708, word_from_bytes(&bytes, 1));
    assert_eq!(0x0203_0405_0607_08AA, word_from_bytes(&bytes, 0));
}

#[test]
fn round_trip_of_four_elements() {
    let elements = vec![
        BaseElement(1),
        BaseElement(M - 1),
        BaseElement(M + 5),
        BaseElement(u64::MAX),
    ];
    let bytes = BaseElement::elements_as_bytes(&elements);
    assert_eq!(32, bytes.len());
    let decoded = decode_elements(&bytes);
    assert_eq!(elements, decoded);
    // the stored words come back, not only the values
    for (a, b) in elements.iter().zip(decoded.iter()) {
        assert_eq!(a.0, b.0);
    }
}

#[test]
fn validate_layout_reasons() {
    assert_eq!(Ok(4), validate_layout(32, 64));
    assert_eq!(Ok(0), validate_layout(0, 8));
    assert_eq!(
        Err(DeserializationError::InvalidValue(Reason::PartialElement)),
        validate_layout(33, 64)
    );
    assert_eq!(
        Err(DeserializationError::InvalidValue(Reason::Misaligned)),
        validate_layout(32, 65)
    );
    // the number of bytes is checked first
    assert_eq!(
        Err(DeserializationError::InvalidValue(Reason::PartialElement)),
        validate_layout(33, 65)
    );
}

#[test]
fn bytes_as_elements_reasons() {
    let bytes = vec![0u8; 24];
    let result = BaseElement::bytes_as_elements(&bytes[..17]);
    assert_eq!(
        Err(DeserializationError::InvalidValue(Reason::PartialElement)),
        result
    );
    // of two windows one byte apart at most one starts on a boundary
    let first = BaseElement::bytes_as_elements(&bytes[..16]);
    let second = BaseElement::bytes_as_elements(&bytes[1..17]);
    assert!(first.is_err() || second.is_err());
    for result in [first, second] {
        match result {
            Ok(elements) => assert_eq!(vec![BaseElement(0), BaseElement(0)], elements),
            Err(e) => assert_eq!(DeserializationError::InvalidValue(Reason::Misaligned), e),
        }
    }
}

#[test]
fn bytes_as_elements_does_not_check_the_words() {
    let mut words = vec![u64::MAX, M];
    words.push(7);
    let mut bytes = vec![];
    for w in words.iter() {
        bytes.extend_from_slice(&w.to_le_bytes());
    }
    assert_eq!(
        vec![BaseElement(u64::MAX), BaseElement(M), BaseElement(7)],
        decode_elements(&bytes)
    );
    assert_eq!(u64::MAX, decode_elements(&bytes)[0].0);
}

#[test]
fn try_from_reasons() {
    let bytes = [1u8, 0, 0, 0, 0, 0, 0];
    assert_eq!(
        Err(DeserializationError::InvalidValue(Reason::NotEnoughBytes)),
        BaseElement::try_from(&bytes[..])
    );
    let bytes = [1u8, 0, 0, 0, 0, 0, 0, 0, 0];
    assert_eq!(
        Err(DeserializationError::InvalidValue(Reason::TooManyBytes)),
        BaseElement::try_from(&bytes[..])
    );
    let bytes = M.to_le_bytes();
    assert_eq!(
        Err(DeserializationError::InvalidValue(Reason::NotBelowModulus)),
        BaseElement::try_from(&bytes[..])
    );
    let bytes = (M - 1).to_le_bytes();
    let element = BaseElement::try_from(&bytes[..]).unwrap();
    assert_eq!(M - 1, element.0);
    let empty: [u8; 0] = [];
    assert_eq!(
        Err(DeserializationError::InvalidValue(Reason::NotEnoughBytes)),
        BaseElement::try_from(&empty[..])
    );
}

#[test]
fn error_texts() {
    let e = DeserializationError::InvalidValue(Reason::Misaligned);
    assert_eq!(Reason::Misaligned, e.reason());
    assert_eq!(
        "bytes do not start on a boundary of the size of an element",
        e.message()
    );
    assert_eq!(
        "not enough bytes for a full field element",
        DeserializationError::InvalidValue(Reason::NotEnoughBytes).message()
    );
    assert_eq!(
        "too many bytes for a field element",
        DeserializationError::InvalidValue(Reason::TooManyBytes).message()
    );
    assert_eq!(
        "value is greater than or equal to the field modulus",
        DeserializationError::InvalidValue(Reason::NotBelowModulus).message()
    );
    assert_eq!(
        "number of bytes is not a multiple of the size of an element",
        DeserializationError::InvalidValue(Reason::PartialElement).message()
    );
}

#[test]
fn to_bytes_is_canonical_and_as_bytes_is_raw() {
    let a = BaseElement(M + 3);
    assert_eq!(3u64.to_le_bytes().to_vec(), a.to_bytes());
    assert_eq!((M + 3).to_le_bytes().to_vec(), a.as_bytes());
    assert_eq!(BaseElement(3), a);
    assert_eq!(3, a.as_int());
}

#[test]
fn from_eight_bytes_reduces() {
    assert_eq!(5, BaseElement::from((M + 5).to_le_bytes()).0);
    assert_eq!(0, BaseElement::from(M.to_le_bytes()).0);
    assert_eq!(M - 1, BaseElement::from((M - 1).to_le_bytes()).0);
}

#[test]
fn from_integers() {
    assert_eq!(255, BaseElement::from(255u8).0);
    assert_eq!(65535, BaseElement::from(65535u16).0);
    assert_eq!(4294967295, BaseElement::from(u32::MAX).0);
    assert_eq!(u64::MAX % M, BaseElement::from(u64::MAX).0);
    assert_eq!(0, BaseElement::from(M).0);
    assert_eq!(1, BaseElement::from(M as u128 * M as u128 + 1).0);
    assert_eq!(BaseElement(0), BaseElement::default());
}

#[test]
fn extension_bytes_are_the_coordinates_in_order() {
    let q = QuadExtension::new(BaseElement(M + 1), BaseElement(2));
    let mut expected = 1u64.to_le_bytes().to_vec();
    expected.extend_from_slice(&2u64.to_le_bytes());
    assert_eq!(expected, q.to_bytes());

    let c = CubeExtension::new(BaseElement(3), BaseElement(M + 4), BaseElement(5));
    let mut expected = 3u64.to_le_bytes().to_vec();
    expected.extend_from_slice(&4u64.to_le_bytes());
    expected.extend_from_slice(&5u64.to_le_bytes());
    assert_eq!(expected, c.to_bytes());
}

#[test]
fn zeroed_vector_of_no_elements() {
    assert_eq!(Vec::<BaseElement>::new(), BaseElement::zeroed_vector(0));
}
