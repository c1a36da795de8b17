//! Errors of deserialization.

use vstd::prelude::*;

verus! {

/// What makes a sequence of bytes unreadable as field elements.
#[derive(Copy, Clone, Debug, PartialEq, Eq)]
pub enum Reason {
    /// There are fewer bytes than one element takes.
    NotEnoughBytes,
    /// There are more bytes than one element takes.
    TooManyBytes,
    /// The encoded integer is not below the field modulus.
    NotBelowModulus,
    /// The number of bytes is not a multiple of the size of an element.
    PartialElement,
    /// The bytes do not start on a boundary of the size of an element.
    Misaligned,
}

/// Why a sequence of bytes could not be read as field elements.
#[derive(Copy, Clone, Debug, PartialEq, Eq)]
pub enum DeserializationError {
    /// The bytes do not encode a valid value, for the reason given.
    InvalidValue(Reason),
}

impl DeserializationError {
    /// Returns the reason for the error.
    pub fn reason(&self) -> (r: Reason)
        ensures
            *self == DeserializationError::InvalidValue(r),
    {
        match self {
            DeserializationError::InvalidValue(reason) => *reason,
        }
    }

    /// Returns a text that describes the error.
    pub fn message(&self) -> (r: &'static str)
        ensures
            r@ == error_text(*self),
    {
        match self.reason() {
            Reason::NotEnoughBytes => "not enough bytes for a full field element",
            Reason::TooManyBytes => "too many bytes for a field element",
            Reason::NotBelowModulus => "value is greater than or equal to the field modulus",
            Reason::PartialElement => "number of bytes is not a multiple of the size of an element",
            Reason::Misaligned => "bytes do not start on a boundary of the size of an element",
        }
    }
}

/// The text that describes a reason.
pub open spec fn reason_text(reason: Reason) -> Seq<char> {
    match reason {
        Reason::NotEnoughBytes => "not enough bytes for a full field element"@,
        Reason::TooManyBytes => "too many bytes for a field element"@,
        Reason::NotBelowModulus => "value is greater than or equal to the field modulus"@,
        Reason::PartialElement => "number of bytes is not a multiple of the size of an element"@,
        Reason::Misaligned => "bytes do not start on a boundary of the size of an element"@,
    }
}

/// The text that describes an error.
pub open spec fn error_text(e: DeserializationError) -> Seq<char> {
    match e {
        DeserializationError::InvalidValue(reason) => reason_text(reason),
    }
}

} // verus!
