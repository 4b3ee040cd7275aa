use xsd_types::{
    Base64BinaryBuf, Datatype, Decimal, DecimalDatatype, HexBinaryBuf, IntDatatype, Integer,
    IntegerDatatype, LongDatatype, NCNameDatatype, NameDatatype, NegativeInteger,
    NonNegativeInteger, NonNegativeIntegerDatatype, NonPositiveIntegerDatatype,
    NormalizedStringDatatype, PositiveInteger, ShortDatatype, StringDatatype, TokenDatatype,
    UnsignedIntDatatype, UnsignedLongDatatype, UnsignedShortDatatype, Value, ValueKind,
    XsdDatatype,
};

fn xsd(name: &str) -> Datatype {
    Datatype::from_iri(&format!("http://www.w3.org/2001/XMLSchema#{}", name)).unwrap()
}

#[test]
fn derived_datatypes_embed_into_the_catalogue() {
    assert_eq!(Datatype::from(ShortDatatype::Byte), xsd("byte"));
    assert_eq!(Datatype::from(IntDatatype::Short(None)), xsd("short"));
    assert_eq!(Datatype::from(LongDatatype::Int(None)), xsd("int"));
    assert_eq!(Datatype::from(IntegerDatatype::Long(None)), xsd("long"));
    assert_eq!(Datatype::from(DecimalDatatype::Integer(None)), xsd("integer"));
    assert_eq!(Datatype::from(UnsignedShortDatatype::UnsignedByte), xsd("unsignedByte"));
    assert_eq!(Datatype::from(UnsignedIntDatatype::UnsignedShort(None)), xsd("unsignedShort"));
    assert_eq!(Datatype::from(UnsignedLongDatatype::UnsignedInt(None)), xsd("unsignedInt"));
    assert_eq!(
        Datatype::from(NonNegativeIntegerDatatype::UnsignedLong(None)),
        xsd("unsignedLong")
    );
    assert_eq!(
        Datatype::from(NonNegativeIntegerDatatype::PositiveInteger),
        xsd("positiveInteger")
    );
    assert_eq!(
        Datatype::from(NonPositiveIntegerDatatype::NegativeInteger),
        xsd("negativeInteger")
    );
    assert_eq!(Datatype::from(StringDatatype::NormalizedString(None)), xsd("normalizedString"));
    assert_eq!(Datatype::from(NormalizedStringDatatype::Token(None)), xsd("token"));
    assert_eq!(Datatype::from(TokenDatatype::Language), xsd("language"));
    assert_eq!(Datatype::from(NameDatatype::NCName(None)), xsd("NCName"));
    assert_eq!(Datatype::from(NCNameDatatype::Entity), xsd("ENTITY"));
}

#[test]
fn embeddings_compose() {
    let byte = ShortDatatype::Byte;
    let by_steps = Datatype::from(DecimalDatatype::from(IntegerDatatype::from(
        LongDatatype::from(IntDatatype::from(byte)),
    )));
    assert_eq!(by_steps, Datatype::from(byte));
    assert_eq!(Datatype::from(IntegerDatatype::from(byte)), Datatype::from(byte));
    assert_eq!(DecimalDatatype::from(LongDatatype::from(byte)), DecimalDatatype::from(byte));
    let unsigned_byte = UnsignedShortDatatype::UnsignedByte;
    let by_steps = Datatype::from(DecimalDatatype::from(IntegerDatatype::from(
        NonNegativeIntegerDatatype::from(UnsignedLongDatatype::from(UnsignedIntDatatype::from(
            unsigned_byte,
        ))),
    )));
    assert_eq!(by_steps, Datatype::from(unsigned_byte));
    let id = NCNameDatatype::Id;
    let by_steps = Datatype::from(StringDatatype::from(NormalizedStringDatatype::from(
        TokenDatatype::from(NameDatatype::from(id)),
    )));
    assert_eq!(by_steps, Datatype::from(id));
    let embedded: IntegerDatatype = byte.into();
    assert_eq!(
        embedded,
        IntegerDatatype::Long(Some(LongDatatype::Int(Some(IntDatatype::Short(Some(byte))))))
    );
}

#[test]
fn embeddings_keep_the_iri() {
    assert_eq!(Datatype::from(ShortDatatype::Byte).iri(), ShortDatatype::Byte.iri());
    assert_eq!(
        Datatype::from(UnsignedLongDatatype::UnsignedInt(None)).iri(),
        UnsignedLongDatatype::UnsignedInt(None).iri()
    );
    assert_eq!(Datatype::from(TokenDatatype::NMToken).iri(), TokenDatatype::NMToken.iri());
}

#[test]
fn kinds_and_datatypes() {
    let kinds = [
        ValueKind::String,
        ValueKind::Boolean,
        ValueKind::Decimal,
        ValueKind::Integer,
        ValueKind::NonPositiveInteger,
        ValueKind::NegativeInteger,
        ValueKind::Long,
        ValueKind::Int,
        ValueKind::Short,
        ValueKind::Byte,
        ValueKind::NonNegativeInteger,
        ValueKind::UnsignedLong,
        ValueKind::UnsignedInt,
        ValueKind::UnsignedShort,
        ValueKind::UnsignedByte,
        ValueKind::PositiveInteger,
        ValueKind::Float,
        ValueKind::Double,
        ValueKind::HexBinary,
        ValueKind::Base64Binary,
        ValueKind::AnyUri,
    ];
    for k in kinds {
        assert_eq!(k.datatype().value_kind(), Some(k));
    }
    assert_eq!(xsd("byte").value_kind(), Some(ValueKind::Byte));
    assert_eq!(xsd("unsignedInt").value_kind(), Some(ValueKind::UnsignedInt));
    assert_eq!(xsd("dateTime").value_kind(), None);
    assert_eq!(xsd("token").value_kind(), None);
    assert_eq!(ShortDatatype::Byte.value_kind(), ValueKind::Byte);
    assert_eq!(IntegerDatatype::Long(None).value_kind(), ValueKind::Long);
    assert_eq!(ValueKind::Short.parse("-300"), Ok(Value::Short(-300)));
    assert_eq!(ValueKind::Boolean.parse("0"), Ok(Value::Boolean(false)));
}

#[test]
fn values_know_their_datatypes() {
    let v = Value::Long(5);
    assert_eq!(v.kind(), ValueKind::Long);
    assert_eq!(v.datatype(), xsd("long"));
    assert_eq!(v.type_(), xsd("byte"));
    assert_eq!(Value::Long(-40000).type_(), xsd("int"));
    assert_eq!(Value::Long(i64::MAX).type_(), xsd("long"));
    assert_eq!(Value::UnsignedInt(70000).type_(), xsd("unsignedInt"));
    assert_eq!(Value::UnsignedLong(u64::MAX).type_(), xsd("unsignedLong"));
    assert_eq!(Value::Byte(-1).type_(), xsd("byte"));
    assert_eq!(Value::UnsignedByte(1).type_(), xsd("unsignedByte"));
    assert_eq!(Value::Integer(Integer::from_i128(300)).type_(), xsd("unsignedShort"));
    assert_eq!(Value::Integer(Integer::from_i128(-300)).type_(), xsd("short"));
    assert_eq!(Value::Integer(Integer::from_i128(0)).datatype(), xsd("integer"));
    assert_eq!(
        Value::NonNegativeInteger(NonNegativeInteger::zero()).type_(),
        xsd("unsignedByte")
    );
    assert_eq!(
        Value::PositiveInteger(PositiveInteger::from_str("1").unwrap()).type_(),
        xsd("positiveInteger")
    );
    assert_eq!(
        Value::NegativeInteger(NegativeInteger::from_str("-1").unwrap()).type_(),
        xsd("negativeInteger")
    );
    assert_eq!(Value::Boolean(true).type_(), xsd("boolean"));
    assert_eq!(Value::String(String::new()).type_(), xsd("string"));
    assert_eq!(Value::Decimal(Decimal::from_str("1.5").unwrap()).type_(), xsd("decimal"));
    assert_eq!(Value::HexBinary(HexBinaryBuf::from_bytes(vec![])).type_(), xsd("hexBinary"));
    assert_eq!(
        Value::Base64Binary(Base64BinaryBuf::from_bytes(vec![])).type_(),
        xsd("base64Binary")
    );
    assert_eq!(xsd("float").parse("1").unwrap().type_(), xsd("float"));
    assert_eq!(xsd("double").parse("1").unwrap().type_(), xsd("double"));
    assert_eq!(xsd("anyURI").parse("a:b").unwrap().type_(), xsd("anyURI"));
}

#[test]
fn integers_from_machine_integers() {
    assert_eq!(Integer::from(255u8).to_string(), "255");
    assert_eq!(Integer::from(u16::MAX).to_string(), "65535");
    assert_eq!(Integer::from(u32::MAX).to_string(), "4294967295");
    assert_eq!(Integer::from(u64::MAX).to_string(), "18446744073709551615");
    assert_eq!(Integer::from(7usize).to_string(), "7");
    assert_eq!(Integer::from(-128i8).to_string(), "-128");
    assert_eq!(Integer::from(i16::MIN).to_string(), "-32768");
    assert_eq!(Integer::from(i32::MIN).to_string(), "-2147483648");
    assert_eq!(Integer::from(i64::MIN).to_string(), "-9223372036854775808");
    assert_eq!(Integer::from(-7isize).to_string(), "-7");
    assert_eq!(NonNegativeInteger::from(0u8).to_string(), "0");
    assert_eq!(NonNegativeInteger::from(u64::MAX).to_string(), "18446744073709551615");
    assert_eq!(NonNegativeInteger::from(65535u16).as_integer(), &Integer::from(65535u32));
    let v: Integer = 12u8.into();
    assert_eq!(v, Integer::from_i128(12));
}
