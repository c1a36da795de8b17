//! Byte encoding of field elements: eight bytes for each coordinate,
//! little-endian.

use crate::base::BaseElement;
use crate::cube::CubeExtension;
use crate::errors::{DeserializationError, Reason};
use crate::modular::{modulus, M};
use crate::quad::QuadExtension;
use crate::traits::FieldElement;
use vstd::prelude::*;
use vstd::std_specs::convert::{FromSpecImpl, TryFromSpecImpl};

verus! {

/// The eight bytes of a 64-bit word, least significant first.
pub open spec fn word_bytes(x: u64) -> Seq<u8> {
    seq![
        (x % 0x100) as u8,
        (x / 0x100 % 0x100) as u8,
        (x / 0x1_0000 % 0x100) as u8,
        (x / 0x100_0000 % 0x100) as u8,
        (x / 0x1_0000_0000 % 0x100) as u8,
        (x / 0x100_0000_0000 % 0x100) as u8,
        (x / 0x1_0000_0000_0000 % 0x100) as u8,
        (x / 0x100_0000_0000_0000 % 0x100) as u8,
    ]
}

/// The 64-bit word that the eight bytes of `bytes` from `at` on encode.
pub open spec fn bytes_word(bytes: Seq<u8>, at: int) -> u64
    recommends
        0 <= at,
        at + 8 <= bytes.len(),
{
    (bytes[at] as int + 0x100 * (bytes[at + 1] as int) + 0x1_0000 * (bytes[at + 2] as int)
        + 0x100_0000 * (bytes[at + 3] as int) + 0x1_0000_0000 * (bytes[at + 4] as int)
        + 0x100_0000_0000 * (bytes[at + 5] as int) + 0x1_0000_0000_0000 * (bytes[at + 6] as int)
        + 0x100_0000_0000_0000 * (bytes[at + 7] as int)) as u64
}

/// The stored words of `elements`, each as eight bytes, one after the other.
pub open spec fn elements_bytes(elements: Seq<BaseElement>) -> Seq<u8> {
    Seq::new(8 * elements.len(), |i: int| word_bytes(elements[i / 8].0)[i % 8])
}

/// The elements whose stored words `bytes` holds, eight bytes each.
pub open spec fn bytes_elements(bytes: Seq<u8>) -> Seq<BaseElement>
    recommends
        bytes.len() % 8 == 0,
{
    Seq::new(bytes.len() / 8, |i: int| BaseElement(bytes_word(bytes, 8 * i)))
}

/// Decoding the bytes of a word gives the word back.
#[verifier::rlimit(40)]
pub proof fn lemma_word_round_trip(x: u64)
    ensures
        word_bytes(x).len() == 8,
        bytes_word(word_bytes(x), 0) == x,
{
    assert(x == (x % 0x100) + 0x100 * (x / 0x100 % 0x100) + 0x1_0000 * (x / 0x1_0000 % 0x100)
        + 0x100_0000 * (x / 0x100_0000 % 0x100) + 0x1_0000_0000 * (x / 0x1_0000_0000 % 0x100)
        + 0x100_0000_0000 * (x / 0x100_0000_0000 % 0x100) + 0x1_0000_0000_0000 * (x
        / 0x1_0000_0000_0000 % 0x100) + 0x100_0000_0000_0000 * (x / 0x100_0000_0000_0000 % 0x100))
        by (bit_vector);
}

/// Encoding the word that eight bytes hold gives the bytes back.
#[verifier::rlimit(40)]
pub proof fn lemma_bytes_round_trip(bytes: Seq<u8>, at: int)
    requires
        0 <= at,
        at + 8 <= bytes.len(),
    ensures
        word_bytes(bytes_word(bytes, at)) =~= bytes.subrange(at, at + 8),
{
    let b0 = bytes[at];
    let b1 = bytes[at + 1];
    let b2 = bytes[at + 2];
    let b3 = bytes[at + 3];
    let b4 = bytes[at + 4];
    let b5 = bytes[at + 5];
    let b6 = bytes[at + 6];
    let b7 = bytes[at + 7];
    let w = bytes_word(bytes, at);
    assert(w % 0x100 == b0 && w / 0x100 % 0x100 == b1 && w / 0x1_0000 % 0x100 == b2 && w
        / 0x100_0000 % 0x100 == b3 && w / 0x1_0000_0000 % 0x100 == b4 && w / 0x100_0000_0000
        % 0x100 == b5 && w / 0x1_0000_0000_0000 % 0x100 == b6 && w / 0x100_0000_0000_0000 % 0x100
        == b7) by (bit_vector)
        requires
            w == b0 as u64 + 0x100 * (b1 as u64) + 0x1_0000 * (b2 as u64) + 0x100_0000 * (
            b3 as u64) + 0x1_0000_0000 * (b4 as u64) + 0x100_0000_0000 * (b5 as u64)
                + 0x1_0000_0000_0000 * (b6 as u64) + 0x100_0000_0000_0000 * (b7 as u64),
    ;
}

/// Returns the eight bytes of `x`, least significant first.
pub fn word_to_bytes(x: u64) -> (r: Vec<u8>)
    ensures
        r@ == word_bytes(x),
{
    let mut r: Vec<u8> = Vec::with_capacity(8);
    r.push((x % 0x100) as u8);
    r.push((x / 0x100 % 0x100) as u8);
    r.push((x / 0x1_0000 % 0x100) as u8);
    r.push((x / 0x100_0000 % 0x100) as u8);
    r.push((x / 0x1_0000_0000 % 0x100) as u8);
    r.push((x / 0x100_0000_0000 % 0x100) as u8);
    r.push((x / 0x1_0000_0000_0000 % 0x100) as u8);
    r.push((x / 0x100_0000_0000_0000 % 0x100) as u8);
    assert(r@ =~= word_bytes(x));
    r
}

/// Returns the word that the eight bytes of `bytes` from `at` on encode.
pub fn word_from_bytes(bytes: &[u8], at: usize) -> (r: u64)
    requires
        at + 8 <= bytes.len(),
    ensures
        r == bytes_word(bytes@, at as int),
{
    bytes[at] as u64 + 0x100 * (bytes[at + 1] as u64) + 0x1_0000 * (bytes[at + 2] as u64)
        + 0x100_0000 * (bytes[at + 3] as u64) + 0x1_0000_0000 * (bytes[at + 4] as u64)
        + 0x100_0000_0000 * (bytes[at + 5] as u64) + 0x1_0000_0000_0000 * (bytes[at + 6] as u64)
        + 0x100_0000_0000_0000 * (bytes[at + 7] as u64)
}

/// What reading one element from `bytes` yields: the element whose stored
/// word the bytes encode, if there are exactly eight of them and the word is
/// below the modulus.
pub open spec fn element_from_bytes(bytes: Seq<u8>) -> Result<BaseElement, DeserializationError> {
    if bytes.len() < 8 {
        Err(DeserializationError::InvalidValue(Reason::NotEnoughBytes))
    } else if bytes.len() > 8 {
        Err(DeserializationError::InvalidValue(Reason::TooManyBytes))
    } else if bytes_word(bytes, 0) >= modulus() {
        Err(DeserializationError::InvalidValue(Reason::NotBelowModulus))
    } else {
        Ok(BaseElement(bytes_word(bytes, 0)))
    }
}

/// What the check of a buffer's layout yields, for a buffer of `len` bytes
/// that starts at `address`: the number of elements that it holds, if it
/// holds whole elements and starts on an eight-byte boundary.
pub open spec fn checked_layout(len: nat, address: nat) -> Result<usize, DeserializationError> {
    if len % 8 != 0 {
        Err(DeserializationError::InvalidValue(Reason::PartialElement))
    } else if address % 8 != 0 {
        Err(DeserializationError::InvalidValue(Reason::Misaligned))
    } else {
        Ok((len / 8) as usize)
    }
}

/// Returns the address at which the first byte of `bytes` lies. The wrapped
/// function is `as_ptr` of slices; nothing is claimed about the address.
#[verifier::external_body]
fn slice_address(bytes: &[u8]) -> (address: usize) {
    bytes.as_ptr() as usize
}

/// Checks the layout of a buffer of `len` bytes at `address`, and returns the
/// number of elements that it holds.
pub fn validate_layout(len: usize, address: usize) -> (r: Result<usize, DeserializationError>)
    ensures
        r == checked_layout(len as nat, address as nat),
{
    if len % 8 != 0 {
        return Err(DeserializationError::InvalidValue(Reason::PartialElement));
    }
    if address % 8 != 0 {
        return Err(DeserializationError::InvalidValue(Reason::Misaligned));
    }
    Ok(len / 8)
}

/// Reads the elements whose stored words `bytes` holds. The words are taken
/// as they are, canonical or not.
pub fn decode_elements(bytes: &[u8]) -> (r: Vec<BaseElement>)
    requires
        bytes.len() % 8 == 0,
    ensures
        r@ == bytes_elements(bytes@),
{
    let n: usize = bytes.len() / 8;
    let mut r: Vec<BaseElement> = Vec::with_capacity(n);
    let mut i: usize = 0;
    while i < n
        invariant
            n == bytes.len() / 8,
            bytes.len() % 8 == 0,
            i <= n,
            r.len() == i,
            forall|j: int| 0 <= j < i ==> r[j] == BaseElement(bytes_word(bytes@, 8 * j)),
        decreases n - i,
    {
        r.push(BaseElement(word_from_bytes(bytes, 8 * i)));
        i = i + 1;
    }
    assert(r@ =~= bytes_elements(bytes@));
    r
}

impl BaseElement {
    /// Returns the eight bytes of the stored word, least significant first.
    /// Elements of equal value may differ in these bytes.
    pub fn as_bytes(&self) -> (r: Vec<u8>)
        ensures
            r@ == word_bytes(self.0),
    {
        word_to_bytes(self.0)
    }

    /// Returns the eight bytes of the canonical integer, least significant
    /// first. Elements of equal value have the same bytes.
    pub fn to_bytes(&self) -> (r: Vec<u8>)
        ensures
            r@ == word_bytes(self.value() as u64),
    {
        word_to_bytes(self.as_int())
    }

    /// Returns the stored words of `elements` as bytes, eight per element.
    pub fn elements_as_bytes(elements: &[BaseElement]) -> (r: Vec<u8>)
        ensures
            r@ == elements_bytes(elements@),
    {
        let n: usize = elements.len();
        let mut r: Vec<u8> = Vec::new();
        let mut i: usize = 0;
        while i < n
            invariant
                n == elements.len(),
                i <= n,
                r.len() == 8 * i,
                forall|j: int| 0 <= j < 8 * i ==> r[j] == word_bytes(elements[j / 8].0)[j % 8],
            decreases n - i,
        {
            let ghost before = r@;
            let mut word: Vec<u8> = word_to_bytes(elements[i].0);
            r.append(&mut word);
            i = i + 1;
            assert forall|j: int| 0 <= j < 8 * i implies r[j] == word_bytes(elements[j / 8].0)[j
                % 8] by {
                if j < before.len() {
                    assert(r[j] == before[j]);
                } else {
                    assert(j / 8 == i - 1);
                    assert(r[j] == word_bytes(elements[i - 1].0)[j - before.len()]);
                }
            }
        }
        assert(r@ =~= elements_bytes(elements@));
        r
    }

    /// Reads `bytes` as a sequence of stored words, eight bytes each. Fails
    /// with an invalid-value error if the number of bytes is not a multiple
    /// of eight or the buffer does not start on an eight-byte boundary; the
    /// words themselves are not checked.
    pub fn bytes_as_elements(bytes: &[u8]) -> (r: Result<Vec<BaseElement>, DeserializationError>)
        ensures
            bytes.len() % 8 != 0 ==> r == Err::<Vec<BaseElement>, DeserializationError>(
                DeserializationError::InvalidValue(Reason::PartialElement),
            ),
            bytes.len() % 8 == 0 ==> (r matches Ok(elements) && elements@ == bytes_elements(bytes@))
                || r == Err::<Vec<BaseElement>, DeserializationError>(
                DeserializationError::InvalidValue(Reason::Misaligned),
            ),
    {
        let address: usize = slice_address(bytes);
        match validate_layout(bytes.len(), address) {
            Ok(_) => Ok(decode_elements(bytes)),
            Err(e) => Err(e),
        }
    }

    /// Returns a vector of `n` elements, all zero.
    pub fn zeroed_vector(n: usize) -> (r: Vec<BaseElement>)
        ensures
            r.len() == n,
            forall|i: int| 0 <= i < n ==> r[i] == BaseElement(0),
    {
        let mut r: Vec<BaseElement> = Vec::with_capacity(n);
        let mut i: usize = 0;
        while i < n
            invariant
                i <= n,
                r.len() == i,
                forall|j: int| 0 <= j < i ==> r[j] == BaseElement(0),
            decreases n - i,
        {
            r.push(BaseElement(0));
            i = i + 1;
        }
        r
    }
}

impl QuadExtension {
    /// Returns the canonical bytes of the two coordinates, one after the
    /// other.
    pub fn to_bytes(&self) -> (r: Vec<u8>)
        ensures
            r@ == word_bytes(self.0.value() as u64) + word_bytes(self.1.value() as u64),
    {
        let mut r: Vec<u8> = self.0.to_bytes();
        let mut rest: Vec<u8> = self.1.to_bytes();
        r.append(&mut rest);
        r
    }
}

impl CubeExtension {
    /// Returns the canonical bytes of the three coordinates, one after the
    /// other.
    pub fn to_bytes(&self) -> (r: Vec<u8>)
        ensures
            r@ == word_bytes(self.0.value() as u64) + word_bytes(self.1.value() as u64)
                + word_bytes(self.2.value() as u64),
    {
        let mut r: Vec<u8> = self.0.to_bytes();
        let mut second: Vec<u8> = self.1.to_bytes();
        let mut third: Vec<u8> = self.2.to_bytes();
        r.append(&mut second);
        r.append(&mut third);
        r
    }
}

impl<'a> TryFrom<&'a [u8]> for BaseElement {
    type Error = DeserializationError;

    /// Reads one element from `bytes`, which must be the eight bytes of a
    /// canonical integer; anything else is an invalid value.
    fn try_from(bytes: &'a [u8]) -> (r: Result<BaseElement, DeserializationError>) {
        if bytes.len() < 8 {
            return Err(DeserializationError::InvalidValue(Reason::NotEnoughBytes));
        }
        if bytes.len() > 8 {
            return Err(DeserializationError::InvalidValue(Reason::TooManyBytes));
        }
        let value: u64 = word_from_bytes(bytes, 0);
        if value >= M {
            return Err(DeserializationError::InvalidValue(Reason::NotBelowModulus));
        }
        Ok(BaseElement(value))
    }
}

impl<'a> TryFromSpecImpl<&'a [u8]> for BaseElement {
    open spec fn obeys_try_from_spec() -> bool {
        true
    }

    open spec fn try_from_spec(bytes: &'a [u8]) -> Result<BaseElement, DeserializationError> {
        element_from_bytes(bytes@)
    }
}

impl From<[u8; 8]> for BaseElement {
    /// Reads the eight bytes as an integer and reduces it modulo the field
    /// modulus.
    fn from(bytes: [u8; 8]) -> (r: BaseElement) {
        BaseElement::new(word_from_bytes(bytes.as_slice(), 0))
    }
}

impl FromSpecImpl<[u8; 8]> for BaseElement {
    open spec fn obeys_from_spec() -> bool {
        true
    }

    open spec fn from_spec(bytes: [u8; 8]) -> BaseElement {
        BaseElement((bytes_word(bytes@, 0) % M) as u64)
    }
}

} // verus!
