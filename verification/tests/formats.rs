use vessels::channel::id::{ForkHandle, Item};
use vessels::flat::{Flat, Kind, Scalar};
use vessels::format::binary::{Binary, Malformed};
use vessels::format::serde::{Mismatch, Serde, Serializer, Unexpected};
use vessels::format::{
    AsBytes, AsBytesError, Format, InvalidUtf8, Null, Plain, TryFromBytes, TryIntoBytes,
};
use vessels::Bottom;

/// A serializer that writes unsigned numbers as decimal text and refuses
/// everything else.
struct Text;

impl Serializer for Text {
    type SerializeError = &'static str;
    type DeserializeError = &'static str;
    type Representation = String;

    fn serialize(&mut self, item: Scalar) -> Result<String, &'static str> {
        match item {
            Scalar::Unsigned(value) => Ok(format!("{}", value)),
            _ => Err("only unsigned numbers"),
        }
    }

    fn deserialize(&mut self, kind: Kind, item: String) -> Result<Scalar, &'static str> {
        if kind != Kind::Unsigned {
            return Err("only unsigned numbers");
        }
        Ok(Scalar::Unsigned(item.parse().map_err(|_| "not a number")?))
    }
}

#[test]
fn null_format_represents_an_item_by_itself() {
    let mut format = Null;
    assert_eq!(Format::<u32>::serialize(&mut format, 42), Ok(Plain(42)));
    assert_eq!(Format::<u32>::deserialize(&mut format, Plain(42)), Ok(42));
    assert_eq!(Format::<bool>::serialize(&mut format, true), Ok(Plain(true)));
    assert_eq!(Format::<char>::deserialize(&mut format, Plain('q')), Ok('q'));
}

#[test]
fn null_format_takes_items_of_every_type() {
    let mut format = Null;
    let text = String::from("as it is");
    assert_eq!(Format::<String>::serialize(&mut format, text.clone()), Ok(Plain(text.clone())));
    assert_eq!(Format::<String>::deserialize(&mut format, Plain(text.clone())), Ok(text));
    let list = vec![1.5f64, 2.5];
    let there = Format::<Vec<f64>>::serialize(&mut format, list.clone()).unwrap();
    assert_eq!(Format::<Vec<f64>>::deserialize(&mut format, there), Ok(list));
    let pair = (Some(7u8), ());
    assert_eq!(Format::<(Option<u8>, ())>::serialize(&mut format, pair), Ok(Plain(pair)));
}

#[test]
fn serde_format_hands_scalars_to_its_serializer() {
    let mut format = Serde(Text);
    assert_eq!(Format::<u16>::serialize(&mut format, 512), Ok("512".to_string()));
    assert!(matches!(Format::<u16>::deserialize(&mut format, "512".to_string()), Ok(512)));
    assert!(matches!(
        Format::<u8>::deserialize(&mut format, "512".to_string()),
        Err(Mismatch::Scalar)
    ));
    assert!(matches!(
        Format::<u8>::deserialize(&mut format, "five".to_string()),
        Err(Mismatch::Serializer("not a number"))
    ));
    assert_eq!(Format::<bool>::serialize(&mut format, true), Err("only unsigned numbers"));
    assert_eq!(
        Format::<ForkHandle>::serialize(&mut format, ForkHandle(7)),
        Ok("7".to_string())
    );
    assert!(matches!(
        Format::<ForkHandle>::deserialize(&mut format, "7".to_string()),
        Ok(ForkHandle(7))
    ));
}

#[test]
fn serde_format_has_nothing_to_deserialize_where_nothing_is_sent() {
    let mut format = Serde(Text);
    let got: Result<Bottom, Unexpected> = Format::<Bottom>::deserialize(&mut format, "1".to_string());
    assert!(matches!(got, Err(Unexpected)));
}

#[test]
fn as_bytes_turns_the_representation_into_bytes_and_back() {
    let mut format = AsBytes(Serde(Text));
    let bytes = Format::<u32>::serialize(&mut format, 42).unwrap();
    assert_eq!(bytes, b"42".to_vec());
    assert!(matches!(Format::<u32>::deserialize(&mut format, bytes), Ok(42)));
}

#[test]
fn as_bytes_tells_its_own_errors_from_those_underneath() {
    let mut format = AsBytes(Serde(Text));
    assert!(matches!(
        Format::<bool>::serialize(&mut format, true),
        Err(AsBytesError::Underlying("only unsigned numbers"))
    ));
    assert!(matches!(
        Format::<u32>::deserialize(&mut format, vec![0xff, 0xfe]),
        Err(AsBytesError::AsBytes(InvalidUtf8))
    ));
    assert!(matches!(
        Format::<u32>::deserialize(&mut format, b"x".to_vec()),
        Err(AsBytesError::Underlying(Mismatch::Serializer("not a number")))
    ));
}

#[test]
fn text_and_bytes_convert_to_bytes() {
    assert_eq!("h\u{e9}llo".to_string().try_into_bytes().unwrap(), vec![b'h', 0xc3, 0xa9, b'l', b'l', b'o']);
    assert_eq!(vec![1u8, 2, 3].try_into_bytes().unwrap(), vec![1u8, 2, 3]);
}

#[test]
fn bytes_convert_to_text_only_if_they_are_utf8() {
    let text = String::try_from_bytes(vec![b'h', 0xc3, 0xa9]).unwrap();
    assert_eq!(text, "h\u{e9}");
    assert!(matches!(String::try_from_bytes(vec![b'h', 0xc3]), Err(InvalidUtf8)));
    assert_eq!(Vec::<u8>::try_from_bytes(vec![0xc3]).unwrap(), vec![0xc3]);
}

#[test]
fn scalars_stand_for_the_values_of_their_types() {
    assert_eq!(200u8.scalar(), Scalar::Unsigned(200));
    assert_eq!((-3i16).scalar(), Scalar::Signed(-3));
    assert_eq!(true.scalar(), Scalar::Bool(true));
    assert_eq!('z'.scalar(), Scalar::Char('z'));
    assert_eq!(ForkHandle(9).scalar(), Scalar::Unsigned(9));
    assert_eq!(u8::from_scalar(Scalar::Unsigned(255)), Some(255));
    assert_eq!(u8::from_scalar(Scalar::Unsigned(256)), None);
    assert_eq!(i8::from_scalar(Scalar::Signed(-128)), Some(-128));
    assert_eq!(i8::from_scalar(Scalar::Signed(-129)), None);
    assert_eq!(i8::from_scalar(Scalar::Unsigned(1)), None);
    assert_eq!(u128::from_scalar(Scalar::Unsigned(u128::MAX)), Some(u128::MAX));
    assert_eq!(ForkHandle::from_scalar(Scalar::Unsigned(1 << 32)), None);
    assert_eq!(bool::from_scalar(Scalar::Char('t')), None);
    assert_eq!(u64::kind(), Kind::Unsigned);
    assert_eq!(isize::kind(), Kind::Signed);
    assert_eq!(bool::kind(), Kind::Bool);
    assert_eq!(char::kind(), Kind::Char);
    assert_eq!(Scalar::Signed(0).kind(), Kind::Signed);
    assert_eq!(().scalar(), Scalar::Unit);
    assert_eq!(<()>::from_scalar(Scalar::Unit), Some(()));
    assert_eq!(<()>::from_scalar(Scalar::Bool(false)), None);
    assert_eq!(<()>::kind(), Kind::Unit);
}

#[test]
fn item_is_encoded_with_its_identifier_least_significant_byte_first() {
    let bytes = Item(0x0102_0304, b"ab".to_vec()).encode();
    assert_eq!(bytes, vec![4, 3, 2, 1, b'a', b'b']);
    let back = Item::decode(bytes).unwrap();
    assert_eq!((back.0, back.1), (0x0102_0304, b"ab".to_vec()));
    let bare = Item::decode(vec![1, 0, 0, 0]).unwrap();
    assert_eq!((bare.0, bare.1), (1, Vec::new()));
    assert!(Item::decode(vec![1, 0, 0]).is_none());
}

#[test]
fn binary_serializer_writes_fixed_widths() {
    assert_eq!(Binary::encode(Scalar::Unit), Vec::<u8>::new());
    assert_eq!(Binary::encode(Scalar::Bool(true)), vec![1]);
    assert_eq!(Binary::encode(Scalar::Bool(false)), vec![0]);
    assert_eq!(Binary::encode(Scalar::Char('A')), vec![0x41, 0, 0, 0]);
    let mut number = vec![0u8; 16];
    number[0] = 0x02;
    number[1] = 0x01;
    assert_eq!(Binary::encode(Scalar::Unsigned(0x0102)), number);
    // Signed numbers are moved up by two to the power of 127.
    let mut zero = vec![0u8; 16];
    zero[15] = 0x80;
    assert_eq!(Binary::encode(Scalar::Signed(0)), zero);
    assert_eq!(Binary::encode(Scalar::Signed(i128::MIN)), vec![0u8; 16]);
    assert_eq!(Binary::encode(Scalar::Signed(-1)), {
        let mut bytes = vec![0xffu8; 16];
        bytes[15] = 0x7f;
        bytes
    });
    assert_eq!(Binary::encode(Scalar::Signed(i128::MAX)), vec![0xffu8; 16]);
}

#[test]
fn binary_serializer_reads_what_it_wrote() {
    let scalars = [
        Scalar::Unit,
        Scalar::Bool(true),
        Scalar::Bool(false),
        Scalar::Char('\u{10FFFF}'),
        Scalar::Char('\u{0}'),
        Scalar::Unsigned(0),
        Scalar::Unsigned(u128::MAX),
        Scalar::Signed(i128::MIN),
        Scalar::Signed(-1),
        Scalar::Signed(0),
        Scalar::Signed(i128::MAX),
    ];
    for scalar in scalars {
        assert_eq!(Binary::decode(scalar.kind(), Binary::encode(scalar)), Some(scalar));
    }
}

#[test]
fn binary_serializer_refuses_what_is_no_scalar() {
    assert_eq!(Binary::decode(Kind::Unit, vec![0]), None);
    assert_eq!(Binary::decode(Kind::Bool, vec![2]), None);
    assert_eq!(Binary::decode(Kind::Bool, vec![]), None);
    assert_eq!(Binary::decode(Kind::Char, vec![0x00, 0xD8, 0, 0]), None);
    assert_eq!(Binary::decode(Kind::Char, vec![0x00, 0x00, 0x11, 0]), None);
    assert_eq!(Binary::decode(Kind::Char, vec![0x41]), None);
    assert_eq!(Binary::decode(Kind::Unsigned, vec![0; 15]), None);
    assert_eq!(Binary::decode(Kind::Signed, vec![0; 17]), None);
    let mut format = Serde(Binary);
    assert!(matches!(
        Format::<u8>::deserialize(&mut format, vec![1]),
        Err(Mismatch::Serializer(Malformed))
    ));
    assert!(matches!(
        Format::<u8>::deserialize(&mut format, Binary::encode(Scalar::Unsigned(256))),
        Err(Mismatch::Scalar)
    ));
    assert!(matches!(Format::<u8>::serialize(&mut format, 7), Ok(bytes) if bytes[0] == 7));
}
