//! A serializer of scalars into bytes of fixed width.
use vstd::prelude::*;

use vstd::bytes::{
    lemma_auto_spec_u128_to_from_le_bytes, lemma_auto_spec_u32_to_from_le_bytes,
    spec_u128_from_le_bytes, spec_u128_to_le_bytes, spec_u32_from_le_bytes,
    spec_u32_to_le_bytes, u128_from_le_bytes, u128_to_le_bytes, u32_from_le_bytes,
    u32_to_le_bytes,
};

use crate::flat::{Kind, Scalar};
use crate::format::serde::{Exact, Serializer};

verus! {

/// The number that separates the negative from the others.
pub const HALF: u128 = 0x8000_0000_0000_0000_0000_0000_0000_0000;

/// The bytes are not those of a scalar of the sort that was asked for.
#[derive(Clone, Copy, Debug, PartialEq, Eq)]
pub struct Malformed;

/// The serializer that writes nothing for the unit, one byte for a
/// boolean, four for a character and sixteen for a number, least
/// significant byte first.
#[derive(Clone, Copy, Debug, PartialEq, Eq)]
pub struct Binary;

/// A signed number, moved up so that the least is zero.
pub open spec fn raised(value: i128) -> u128 {
    (value - i128::MIN) as u128
}

/// What `raised` moved up, moved down again.
pub open spec fn lowered(value: u128) -> i128 {
    (value + i128::MIN) as i128
}

/// The bytes of a scalar.
pub open spec fn encoded(scalar: Scalar) -> Seq<u8> {
    match scalar {
        Scalar::Unit => Seq::empty(),
        Scalar::Bool(value) => seq![if value { 1u8 } else { 0u8 }],
        Scalar::Char(value) => spec_u32_to_le_bytes(value as u32),
        Scalar::Unsigned(value) => spec_u128_to_le_bytes(value),
        Scalar::Signed(value) => spec_u128_to_le_bytes(raised(value)),
    }
}

/// Whether a number is the code of a character.
pub open spec fn is_char(code: u32) -> bool {
    code <= 0xD7FF || 0xE000 <= code <= 0x10FFFF
}

/// The scalar of a sort that bytes stand for, if they stand for one.
pub open spec fn decoded(kind: Kind, bytes: Seq<u8>) -> Option<Scalar> {
    match kind {
        Kind::Unit => if bytes.len() == 0 {
            Some(Scalar::Unit)
        } else {
            None
        },
        Kind::Bool => if bytes.len() == 1 && bytes[0] <= 1 {
            Some(Scalar::Bool(bytes[0] == 1))
        } else {
            None
        },
        Kind::Char => if bytes.len() == 4 && is_char(spec_u32_from_le_bytes(bytes)) {
            Some(Scalar::Char(spec_u32_from_le_bytes(bytes) as char))
        } else {
            None
        },
        Kind::Unsigned => if bytes.len() == 16 {
            Some(Scalar::Unsigned(spec_u128_from_le_bytes(bytes)))
        } else {
            None
        },
        Kind::Signed => if bytes.len() == 16 {
            Some(Scalar::Signed(lowered(spec_u128_from_le_bytes(bytes))))
        } else {
            None
        },
    }
}

/// Decoding gives back the scalar that was encoded.
pub proof fn lemma_encoding(scalar: Scalar)
    ensures
        decoded(scalar.kind_of(), encoded(scalar)) == Some(scalar),
{
    lemma_auto_spec_u32_to_from_le_bytes();
    lemma_auto_spec_u128_to_from_le_bytes();
    match scalar {
        Scalar::Char(value) => {
            assert(is_char(value as u32));
            assert((value as u32) as char == value);
        },
        _ => {},
    }
}

/// `char::from_u32`: the character with the code `code`, or nothing if
/// `code` is the code of none.
#[verifier::external_body]
fn char_from_u32(code: u32) -> (r: Option<char>)
    ensures
        r == if is_char(code) {
            Some(code as char)
        } else {
            None
        },
{
    char::from_u32(code)
}

impl Binary {
    /// Encodes a scalar.
    pub fn encode(scalar: Scalar) -> (r: Vec<u8>)
        ensures
            r@ == encoded(scalar),
    {
        match scalar {
            Scalar::Unit => Vec::new(),
            Scalar::Bool(value) => {
                let mut r: Vec<u8> = Vec::new();
                r.push(if value { 1u8 } else { 0u8 });
                assert(r@ =~= encoded(scalar));
                r
            },
            Scalar::Char(value) => u32_to_le_bytes(value as u32),
            Scalar::Unsigned(value) => u128_to_le_bytes(value),
            Scalar::Signed(value) => {
                let up: u128 = if value >= 0 {
                    value as u128 + HALF
                } else {
                    (value - i128::MIN) as u128
                };
                u128_to_le_bytes(up)
            },
        }
    }

    /// Decodes a scalar of the sort `kind`.
    pub fn decode(kind: Kind, bytes: Vec<u8>) -> (r: Option<Scalar>)
        ensures
            r == decoded(kind, bytes@),
    {
        match kind {
            Kind::Unit => if bytes.len() == 0 {
                Some(Scalar::Unit)
            } else {
                None
            },
            Kind::Bool => if bytes.len() == 1 && bytes[0] <= 1 {
                Some(Scalar::Bool(bytes[0] == 1))
            } else {
                None
            },
            Kind::Char => if bytes.len() == 4 {
                match char_from_u32(u32_from_le_bytes(bytes.as_slice())) {
                    Some(value) => Some(Scalar::Char(value)),
                    None => None,
                }
            } else {
                None
            },
            Kind::Unsigned => if bytes.len() == 16 {
                Some(Scalar::Unsigned(u128_from_le_bytes(bytes.as_slice())))
            } else {
                None
            },
            Kind::Signed => if bytes.len() == 16 {
                let up = u128_from_le_bytes(bytes.as_slice());
                let value: i128 = if up >= HALF {
                    (up - HALF) as i128
                } else {
                    up as i128 + i128::MIN
                };
                Some(Scalar::Signed(value))
            } else {
                None
            },
        }
    }
}

impl Serializer for Binary {
    type SerializeError = core::convert::Infallible;

    type DeserializeError = Malformed;

    type Representation = Vec<u8>;

    open spec fn serialized(self, item: Scalar) -> (
        Self,
        Result<Seq<u8>, core::convert::Infallible>,
    ) {
        (self, Ok(encoded(item)))
    }

    fn serialize(&mut self, item: Scalar) -> (r: Result<Vec<u8>, core::convert::Infallible>) {
        Ok(Binary::encode(item))
    }

    open spec fn deserialized(self, kind: Kind, item: Seq<u8>) -> (
        Self,
        Result<Scalar, Malformed>,
    ) {
        (
            self,
            match decoded(kind, item) {
                Some(scalar) => Ok(scalar),
                None => Err(Malformed),
            },
        )
    }

    fn deserialize(&mut self, kind: Kind, item: Vec<u8>) -> (r: Result<Scalar, Malformed>) {
        match Binary::decode(kind, item) {
            Some(scalar) => Ok(scalar),
            None => Err(Malformed),
        }
    }
}

impl Exact for Binary {
    proof fn round_trip(sender: Self, receiver: Self, item: Scalar) {
        lemma_encoding(item);
    }
}

} // verus!
