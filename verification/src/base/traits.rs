//! The two codec traits: packed layouts of fixed size, and enumerations carried in one byte.
use vstd::prelude::*;
use crate::base::errors::MctpBaseLibError;

verus! {

/// A message with a packed wire layout of fixed size.
///
/// Encoding is total. Decoding looks at the first [`FromBinary::spec_size`] bytes only and
/// fails exactly when there are fewer.
pub trait FromBinary: Sized {
    /// Number of bytes of the packed layout.
    spec fn spec_size() -> nat;

    /// The packed layout of `self`.
    spec fn spec_encode(&self) -> Seq<u8>;

    /// The value that the first `spec_size()` bytes of `bytes` stand for.
    spec fn spec_decode(bytes: Seq<u8>) -> Self;

    /// Number of bytes of the packed layout.
    fn size() -> (n: usize)
        ensures
            n == Self::spec_size(),
    ;

    /// Encodes `self` into its packed layout.
    fn to_bytes(&self) -> (bytes: Vec<u8>)
        ensures
            bytes@ == self.spec_encode(),
    ;

    /// Decodes the packed layout from the front of `bytes`.
    fn try_from_bytes(bytes: &[u8]) -> (r: Result<Self, MctpBaseLibError>)
        ensures
            bytes@.len() >= Self::spec_size() ==> r == Ok::<Self, MctpBaseLibError>(
                Self::spec_decode(bytes@),
            ),
            bytes@.len() < Self::spec_size() ==> r == Err::<Self, MctpBaseLibError>(
                MctpBaseLibError::InvalidPayloadSize {
                    expected: Self::spec_size() as usize,
                    found: bytes@.len() as usize,
                },
            ),
    ;

    /// The encoding has exactly `spec_size()` bytes.
    proof fn lemma_encode_len(&self)
        ensures
            self.spec_encode().len() == Self::spec_size(),
    ;

    /// Decoding reads nothing beyond the first `spec_size()` bytes.
    proof fn lemma_decode_prefix(bytes: Seq<u8>)
        requires
            bytes.len() >= Self::spec_size(),
        ensures
            Self::spec_decode(bytes) == Self::spec_decode(bytes.take(Self::spec_size() as int)),
    ;

    /// Decoding an encoding gives the value back.
    proof fn lemma_round_trip(&self)
        ensures
            Self::spec_decode(self.spec_encode()) == *self,
    ;
}

/// A value is read back from its own encoding, whatever bytes follow the encoding.
pub proof fn lemma_decode_of_encode<T: FromBinary>(value: T, rest: Seq<u8>)
    ensures
        (value.spec_encode() + rest).len() >= T::spec_size(),
        T::spec_decode(value.spec_encode() + rest) == value,
{
    let bytes = value.spec_encode() + rest;
    value.lemma_encode_len();
    value.lemma_round_trip();
    T::lemma_decode_prefix(bytes);
    assert(bytes.take(T::spec_size() as int) == value.spec_encode());
}

/// An enumeration carried on the wire as one byte. Bytes without a variant of their own
/// decode to the designated fallback variant.
pub trait U8Enum: Sized {
    /// The variant that `value` stands for.
    spec fn spec_from_u8(value: u8) -> Self;

    /// The byte that stands for `self`.
    spec fn spec_to_u8(&self) -> u8;

    /// The variant that `value` stands for.
    fn from_u8(value: u8) -> (e: Self)
        ensures
            e == Self::spec_from_u8(value),
    ;

    /// The byte that stands for `self`.
    fn to_u8(&self) -> (v: u8)
        ensures
            v == self.spec_to_u8(),
    ;

    /// Every variant decodes from its own byte.
    proof fn lemma_from_to(&self)
        ensures
            Self::spec_from_u8(self.spec_to_u8()) == *self,
    ;
}

/// The one-byte encoding of an enumeration.
pub fn encode_u8_enum<E: U8Enum>(e: &E) -> (bytes: Vec<u8>)
    ensures
        bytes@ == seq![e.spec_to_u8()],
{
    let mut bytes: Vec<u8> = Vec::new();
    bytes.push(e.to_u8());
    bytes
}

/// Decodes an enumeration from the first byte of `bytes`; fails exactly when `bytes` is empty.
pub fn decode_u8_enum<E: U8Enum>(bytes: &[u8]) -> (r: Result<E, MctpBaseLibError>)
    ensures
        bytes@.len() >= 1 ==> r == Ok::<E, MctpBaseLibError>(E::spec_from_u8(bytes@[0])),
        bytes@.len() == 0 ==> r == Err::<E, MctpBaseLibError>(
            MctpBaseLibError::InvalidPayloadSize { expected: 1, found: 0 },
        ),
{
    if bytes.len() < 1 {
        return Err(MctpBaseLibError::InvalidPayloadSize { expected: 1, found: 0 });
    }
    Ok(E::from_u8(bytes[0]))
}

} // verus!
