//! Formats turn the items of a protocol into a representation that a
//! transport can carry, and back.
use vstd::prelude::*;

use core::convert::Infallible;

use vstd::string::StrSliceExecFns;
use vstd::utf8::{decode_utf8, encode_utf8, valid_utf8};

pub mod binary;
pub mod serde;

pub use self::serde::Serde;

verus! {

/// A codec for items of type `T`. A format may keep state: each call hands
/// back the format as it is after the call.
pub trait Format<T>: Sized {
    type Representation: View;
    type SerializeError;
    type DeserializeError;

    /// The format after serializing `data`, and the representation or the
    /// error that serializing gives.
    open spec fn serialized(self, data: T) -> (
        Self,
        Result<<Self::Representation as View>::V, Self::SerializeError>,
    ) {
        arbitrary()
    }

    fn serialize(&mut self, data: T) -> (r: Result<Self::Representation, Self::SerializeError>)
        ensures
            *final(self) == old(self).serialized(data).0,
            match r {
                Ok(repr) => old(self).serialized(data).1 == Ok::<_, Self::SerializeError>(repr@),
                Err(e) => old(self).serialized(data).1 == Err::<<Self::Representation as View>::V, _>(e),
            },
    ;

    /// The format after deserializing `data`, and the item or the error
    /// that deserializing gives.
    open spec fn deserialized(self, data: <Self::Representation as View>::V) -> (
        Self,
        Result<T, Self::DeserializeError>,
    ) {
        arbitrary()
    }

    fn deserialize(&mut self, data: Self::Representation) -> (r: Result<T, Self::DeserializeError>)
        ensures
            (*final(self), r) == old(self).deserialized(data@),
    ;
}

/// A format that gives back what it serialized, whatever state the two
/// sides are in.
pub trait Lossless<T>: Format<T> {
    proof fn round_trip(sender: Self, receiver: Self, data: T)
        ensures
            sender.serialized(data).1 matches Ok(repr) ==> receiver.deserialized(repr).1 == Ok::<
                T,
                Self::DeserializeError,
            >(data),
    ;
}

/// An item as its own representation: what the null format hands to the
/// transport.
#[derive(Debug, PartialEq, Eq)]
pub struct Plain<T>(pub T);

impl<T> View for Plain<T> {
    type V = T;

    open spec fn view(&self) -> T {
        self.0
    }
}

/// The format that represents every item by itself, whatever its type.
pub struct Null;

impl<T> Format<T> for Null {
    type Representation = Plain<T>;

    type SerializeError = Infallible;

    type DeserializeError = Infallible;

    open spec fn serialized(self, data: T) -> (Self, Result<T, Infallible>) {
        (self, Ok(data))
    }

    fn serialize(&mut self, data: T) -> (r: Result<Plain<T>, Infallible>) {
        Ok(Plain(data))
    }

    open spec fn deserialized(self, data: T) -> (Self, Result<T, Infallible>) {
        (self, Ok(data))
    }

    fn deserialize(&mut self, data: Plain<T>) -> (r: Result<T, Infallible>) {
        Ok(data.0)
    }
}

impl<T> Lossless<T> for Null {
    proof fn round_trip(sender: Self, receiver: Self, data: T) {
    }
}

/// Adapts a format whose representation can be turned into bytes and back
/// to a format whose representation is bytes.
pub struct AsBytes<T>(pub T);

/// The fallible conversion of a representation into bytes.
pub trait TryIntoBytes: View + Sized {
    type Error;

    /// The bytes of a representation, or why it has none.
    open spec fn bytes_of(repr: Self::V) -> Result<Seq<u8>, Self::Error> {
        arbitrary()
    }

    fn try_into_bytes(self) -> (r: Result<Vec<u8>, Self::Error>)
        ensures
            match r {
                Ok(bytes) => Self::bytes_of(self@) == Ok::<_, Self::Error>(bytes@),
                Err(e) => Self::bytes_of(self@) == Err::<Seq<u8>, _>(e),
            },
    ;
}

impl TryIntoBytes for Vec<u8> {
    type Error = Infallible;

    open spec fn bytes_of(repr: Seq<u8>) -> Result<Seq<u8>, Infallible> {
        Ok(repr)
    }

    fn try_into_bytes(self) -> (r: Result<Vec<u8>, Infallible>) {
        Ok(self)
    }
}

impl TryIntoBytes for String {
    type Error = Infallible;

    open spec fn bytes_of(repr: Seq<char>) -> Result<Seq<u8>, Infallible> {
        Ok(encode_utf8(repr))
    }

    fn try_into_bytes(self) -> (r: Result<Vec<u8>, Infallible>) {
        Ok(self.as_str().as_bytes_vec())
    }
}

/// The fallible conversion of bytes into a representation.
pub trait TryFromBytes: View + Sized {
    type Error;

    /// The representation that bytes stand for, or why they stand for none.
    open spec fn of_bytes(bytes: Seq<u8>) -> Result<Self::V, Self::Error> {
        arbitrary()
    }

    fn try_from_bytes(bytes: Vec<u8>) -> (r: Result<Self, Self::Error>)
        ensures
            match r {
                Ok(repr) => Self::of_bytes(bytes@) == Ok::<_, Self::Error>(repr@),
                Err(e) => Self::of_bytes(bytes@) == Err::<Self::V, _>(e),
            },
    ;
}

impl TryFromBytes for Vec<u8> {
    type Error = Infallible;

    open spec fn of_bytes(bytes: Seq<u8>) -> Result<Seq<u8>, Infallible> {
        Ok(bytes)
    }

    fn try_from_bytes(bytes: Vec<u8>) -> (r: Result<Vec<u8>, Infallible>) {
        Ok(bytes)
    }
}

/// The bytes are not the UTF-8 encoding of any text.
#[derive(Debug)]
pub struct InvalidUtf8;

/// `std::string::FromUtf8Error`, the error of `String::from_utf8`. It is
/// carried only as far as the conversion to [`InvalidUtf8`]: nothing is
/// read from it.
#[verifier::external_type_specification]
#[verifier::external_body]
pub struct ExFromUtf8Error(std::string::FromUtf8Error);

/// `String::from_utf8`: the text that the bytes encode if they are valid
/// UTF-8, an error if they are not.
#[verifier::external_body]
fn string_from_utf8(bytes: Vec<u8>) -> (r: Result<String, std::string::FromUtf8Error>)
    ensures
        r is Ok <==> valid_utf8(bytes@),
        r matches Ok(text) ==> text@ == decode_utf8(bytes@),
{
    String::from_utf8(bytes)
}

impl TryFromBytes for String {
    type Error = InvalidUtf8;

    open spec fn of_bytes(bytes: Seq<u8>) -> Result<Seq<char>, InvalidUtf8> {
        if valid_utf8(bytes) {
            Ok(decode_utf8(bytes))
        } else {
            Err(InvalidUtf8)
        }
    }

    fn try_from_bytes(bytes: Vec<u8>) -> (r: Result<String, InvalidUtf8>) {
        match string_from_utf8(bytes) {
            Ok(text) => Ok(text),
            Err(_) => Err(InvalidUtf8),
        }
    }
}

/// An error of a conversion through `AsBytes`: raised by the conversion
/// between the representation and bytes, or by the format underneath.
#[derive(Debug)]
pub enum AsBytesError<T, U> {
    AsBytes(T),
    Underlying(U),
}

impl<U, T: Format<U>> Format<U> for AsBytes<T> where T::Representation: TryIntoBytes + TryFromBytes {
    type Representation = Vec<u8>;

    type SerializeError = AsBytesError<<T::Representation as TryIntoBytes>::Error, T::SerializeError>;

    type DeserializeError = AsBytesError<
        <T::Representation as TryFromBytes>::Error,
        T::DeserializeError,
    >;

    open spec fn serialized(self, data: U) -> (Self, Result<Seq<u8>, Self::SerializeError>) {
        let step = self.0.serialized(data);
        (
            AsBytes(step.0),
            match step.1 {
                Ok(repr) => match <T::Representation as TryIntoBytes>::bytes_of(repr) {
                    Ok(bytes) => Ok(bytes),
                    Err(e) => Err(AsBytesError::AsBytes(e)),
                },
                Err(e) => Err(AsBytesError::Underlying(e)),
            },
        )
    }

    fn serialize(&mut self, data: U) -> (r: Result<Vec<u8>, Self::SerializeError>) {
        match self.0.serialize(data) {
            Ok(repr) => match repr.try_into_bytes() {
                Ok(bytes) => Ok(bytes),
                Err(e) => Err(AsBytesError::AsBytes(e)),
            },
            Err(e) => Err(AsBytesError::Underlying(e)),
        }
    }

    open spec fn deserialized(self, data: Seq<u8>) -> (Self, Result<U, Self::DeserializeError>) {
        match <T::Representation as TryFromBytes>::of_bytes(data) {
            Ok(repr) => {
                let step = self.0.deserialized(repr);
                (
                    AsBytes(step.0),
                    match step.1 {
                        Ok(item) => Ok(item),
                        Err(e) => Err(AsBytesError::Underlying(e)),
                    },
                )
            },
            Err(e) => (self, Err(AsBytesError::AsBytes(e))),
        }
    }

    fn deserialize(&mut self, data: Vec<u8>) -> (r: Result<U, Self::DeserializeError>) {
        match <T::Representation as TryFromBytes>::try_from_bytes(data) {
            Ok(repr) => match self.0.deserialize(repr) {
                Ok(item) => Ok(item),
                Err(e) => Err(AsBytesError::Underlying(e)),
            },
            Err(e) => Err(AsBytesError::AsBytes(e)),
        }
    }
}

} // verus!
