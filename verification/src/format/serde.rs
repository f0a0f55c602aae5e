//! The format that hands every scalar to a serializer.
use vstd::prelude::*;

use crate::flat::{Flat, Kind, Scalar};
use crate::format::{Format, Lossless};
use crate::Bottom;

verus! {

/// A codec for scalars. A serializer may keep state: each call hands back
/// the serializer as it is after the call.
pub trait Serializer: Sized {
    type SerializeError;
    type DeserializeError;
    type Representation: View;

    /// The serializer after serializing `item`, and the representation or
    /// the error that serializing gives.
    open spec fn serialized(self, item: Scalar) -> (
        Self,
        Result<<Self::Representation as View>::V, Self::SerializeError>,
    ) {
        arbitrary()
    }

    fn serialize(&mut self, item: Scalar) -> (r: Result<
        Self::Representation,
        Self::SerializeError,
    >)
        ensures
            *final(self) == old(self).serialized(item).0,
            match r {
                Ok(repr) => old(self).serialized(item).1 == Ok::<_, Self::SerializeError>(repr@),
                Err(e) => old(self).serialized(item).1 == Err::<
                    <Self::Representation as View>::V,
                    _,
                >(e),
            },
    ;

    /// The serializer after deserializing a scalar of the sort `kind` from
    /// `item`, and the scalar or the error that deserializing gives.
    open spec fn deserialized(self, kind: Kind, item: <Self::Representation as View>::V) -> (
        Self,
        Result<Scalar, Self::DeserializeError>,
    ) {
        arbitrary()
    }

    fn deserialize(&mut self, kind: Kind, item: Self::Representation) -> (r: Result<
        Scalar,
        Self::DeserializeError,
    >)
        ensures
            (*final(self), r) == old(self).deserialized(kind, item@),
    ;
}

/// The format of a serializer: every scalar goes through it.
pub struct Serde<T: Serializer>(pub T);

/// An error of deserializing through a serializer: raised by the
/// serializer, or the scalar that it gave is none of the type asked for.
#[derive(Debug)]
pub enum Mismatch<E> {
    Serializer(E),
    Scalar,
}

impl<T: Serializer, U: Flat> Format<U> for Serde<T> {
    type Representation = T::Representation;

    type SerializeError = T::SerializeError;

    type DeserializeError = Mismatch<T::DeserializeError>;

    open spec fn serialized(self, data: U) -> (
        Self,
        Result<<T::Representation as View>::V, T::SerializeError>,
    ) {
        let step = self.0.serialized(data.scalar_of());
        (Serde(step.0), step.1)
    }

    fn serialize(&mut self, data: U) -> (r: Result<T::Representation, T::SerializeError>) {
        self.0.serialize(data.scalar())
    }

    open spec fn deserialized(self, data: <T::Representation as View>::V) -> (
        Self,
        Result<U, Mismatch<T::DeserializeError>>,
    ) {
        let step = self.0.deserialized(U::kind_of(), data);
        (
            Serde(step.0),
            match step.1 {
                Ok(scalar) => match U::of_scalar(scalar) {
                    Some(value) => Ok(value),
                    None => Err(Mismatch::Scalar),
                },
                Err(e) => Err(Mismatch::Serializer(e)),
            },
        )
    }

    fn deserialize(&mut self, data: T::Representation) -> (r: Result<
        U,
        Mismatch<T::DeserializeError>,
    >) {
        match self.0.deserialize(U::kind(), data) {
            Ok(scalar) => match U::from_scalar(scalar) {
                Some(value) => Ok(value),
                None => Err(Mismatch::Scalar),
            },
            Err(e) => Err(Mismatch::Serializer(e)),
        }
    }
}

/// An item was asked of a direction in which nothing can be sent.
#[derive(Debug)]
pub struct Unexpected;

impl<T: Serializer> Format<Bottom> for Serde<T> {
    type Representation = T::Representation;

    type SerializeError = T::SerializeError;

    type DeserializeError = Unexpected;

    open spec fn serialized(self, data: Bottom) -> (
        Self,
        Result<<T::Representation as View>::V, T::SerializeError>,
    ) {
        (self, arbitrary())
    }

    fn serialize(&mut self, data: Bottom) -> (r: Result<T::Representation, T::SerializeError>) {
        match data {
            Bottom::Never(never) => {
                proof {
                    use_type_invariant(&never);
                }
                unreached()
            },
        }
    }

    open spec fn deserialized(self, data: <T::Representation as View>::V) -> (
        Self,
        Result<Bottom, Unexpected>,
    ) {
        (self, Err(Unexpected))
    }

    fn deserialize(&mut self, data: T::Representation) -> (r: Result<Bottom, Unexpected>) {
        Err(Unexpected)
    }
}

/// A serializer that gives back the scalar that it serialized, whatever
/// state the two sides are in.
pub trait Exact: Serializer {
    proof fn round_trip(sender: Self, receiver: Self, item: Scalar)
        ensures
            sender.serialized(item).1 matches Ok(repr) ==> receiver.deserialized(
                item.kind_of(),
                repr,
            ).1 == Ok::<Scalar, Self::DeserializeError>(item),
    ;
}

impl<T: Exact, U: Flat> Lossless<U> for Serde<T> {
    proof fn round_trip(sender: Self, receiver: Self, data: U) {
        data.scalar_round_trip();
        T::round_trip(sender.0, receiver.0, data.scalar_of());
    }
}

} // verus!
