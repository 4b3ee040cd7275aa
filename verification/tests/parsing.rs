use xsd_types::lexical::float::{DoubleBuf, FloatBuf};
use xsd_types::lexical::LexicalError;
use xsd_types::{
    AnyUriBuf, Base64BinaryBuf, Datatype, Decimal, DecimalDatatype, HexBinaryBuf, IntDatatype, Integer,
    IntegerDatatype, LongDatatype, NCNameDatatype, NameDatatype, NegativeInteger,
    NonNegativeInteger, NonNegativeIntegerDatatype, NonPositiveInteger,
    NonPositiveIntegerDatatype, NormalizedStringDatatype, ParseError, ParseRdf, ParseRdfError,
    PositiveInteger, ShortDatatype, StringDatatype, TokenDatatype, UnsignedIntDatatype,
    UnsignedLongDatatype, UnsignedShortDatatype, Value,
};

fn xsd(name: &str) -> Datatype {
    Datatype::from_iri(&format!("http://www.w3.org/2001/XMLSchema#{}", name)).unwrap()
}

fn integer(s: &str) -> Integer {
    Integer::from_str(s).unwrap()
}

#[test]
fn parse_integer_with_leading_zeros() {
    let v = xsd("integer").parse("007").unwrap();
    assert_eq!(v, Value::Integer(Integer::from_i128(7)));
    assert_eq!(v.lexical_representation(), "7");
}

#[test]
fn parse_non_negative_integer() {
    let d = xsd("nonNegativeInteger");
    assert_eq!(
        d.parse("+5"),
        Ok(Value::NonNegativeInteger(NonNegativeInteger::from_str("5").unwrap()))
    );
    assert_eq!(d.parse("-1"), Err(ParseError::InvalidLexicalForm(LexicalError::OutOfRange)));
    assert_eq!(d.parse("-0").unwrap().lexical_representation(), "0");
}

#[test]
fn parse_sign_restricted_integers() {
    assert_eq!(
        xsd("positiveInteger").parse("+12"),
        Ok(Value::PositiveInteger(PositiveInteger::from_str("12").unwrap()))
    );
    assert_eq!(
        xsd("positiveInteger").parse("0"),
        Err(ParseError::InvalidLexicalForm(LexicalError::OutOfRange))
    );
    assert_eq!(
        xsd("nonPositiveInteger").parse("-12"),
        Ok(Value::NonPositiveInteger(NonPositiveInteger::from_str("-12").unwrap()))
    );
    assert_eq!(
        xsd("nonPositiveInteger").parse("12"),
        Err(ParseError::InvalidLexicalForm(LexicalError::OutOfRange))
    );
    assert_eq!(
        xsd("negativeInteger").parse("-12"),
        Ok(Value::NegativeInteger(NegativeInteger::from_str("-12").unwrap()))
    );
    assert_eq!(
        xsd("negativeInteger").parse("-0"),
        Err(ParseError::InvalidLexicalForm(LexicalError::OutOfRange))
    );
}

#[test]
fn parse_fixed_width_integers() {
    assert_eq!(xsd("byte").parse("-128"), Ok(Value::Byte(-128)));
    assert_eq!(xsd("byte").parse("+127"), Ok(Value::Byte(127)));
    assert_eq!(xsd("byte").parse("128"), Err(ParseError::InvalidValue(integer("128"))));
    assert_eq!(xsd("byte").parse("-129"), Err(ParseError::InvalidValue(integer("-129"))));
    assert_eq!(xsd("short").parse("-32768"), Ok(Value::Short(i16::MIN)));
    assert_eq!(xsd("short").parse("32768"), Err(ParseError::InvalidValue(integer("32768"))));
    assert_eq!(xsd("int").parse("2147483647"), Ok(Value::Int(i32::MAX)));
    assert_eq!(
        xsd("int").parse("2147483648"),
        Err(ParseError::InvalidValue(integer("2147483648")))
    );
    assert_eq!(xsd("long").parse("-9223372036854775808"), Ok(Value::Long(i64::MIN)));
    assert_eq!(
        xsd("long").parse("9223372036854775808"),
        Err(ParseError::InvalidValue(integer("9223372036854775808")))
    );
    assert_eq!(xsd("unsignedByte").parse("255"), Ok(Value::UnsignedByte(255)));
    assert_eq!(xsd("unsignedByte").parse("0255"), Ok(Value::UnsignedByte(255)));
    assert_eq!(xsd("unsignedByte").parse("-0"), Ok(Value::UnsignedByte(0)));
    assert_eq!(
        xsd("unsignedByte").parse("256"),
        Err(ParseError::InvalidValue(integer("256")))
    );
    assert_eq!(xsd("unsignedByte").parse("-1"), Err(ParseError::InvalidValue(integer("-1"))));
    assert_eq!(xsd("unsignedShort").parse("65535"), Ok(Value::UnsignedShort(u16::MAX)));
    assert_eq!(
        xsd("unsignedShort").parse("65536"),
        Err(ParseError::InvalidValue(integer("65536")))
    );
    assert_eq!(xsd("unsignedInt").parse("4294967295"), Ok(Value::UnsignedInt(u32::MAX)));
    assert_eq!(
        xsd("unsignedInt").parse("4294967296"),
        Err(ParseError::InvalidValue(integer("4294967296")))
    );
    assert_eq!(
        xsd("unsignedLong").parse("18446744073709551615"),
        Ok(Value::UnsignedLong(u64::MAX))
    );
    assert_eq!(
        xsd("unsignedLong").parse("18446744073709551616"),
        Err(ParseError::InvalidValue(integer("18446744073709551616")))
    );
    assert_eq!(
        xsd("unsignedLong").parse("1.5"),
        Err(ParseError::InvalidLexicalForm(LexicalError::UnexpectedCharacter(1)))
    );
    assert_eq!(xsd("byte").parse(""), Err(ParseError::InvalidLexicalForm(LexicalError::Empty)));
}

#[test]
fn parse_other_datatypes() {
    assert_eq!(xsd("string").parse(" any text "), Ok(Value::String(" any text ".to_string())));
    assert_eq!(xsd("string").parse(""), Ok(Value::String(String::new())));
    assert_eq!(xsd("boolean").parse("1"), Ok(Value::Boolean(true)));
    assert_eq!(xsd("boolean").parse("false"), Ok(Value::Boolean(false)));
    assert_eq!(
        xsd("boolean").parse("FALSE"),
        Err(ParseError::InvalidLexicalForm(LexicalError::Malformed))
    );
    assert_eq!(
        xsd("decimal").parse("-1.50"),
        Ok(Value::Decimal(Decimal::from_str("-1.5").unwrap()))
    );
    assert_eq!(
        xsd("decimal").parse("1.5.0"),
        Err(ParseError::InvalidLexicalForm(LexicalError::UnexpectedCharacter(3)))
    );
    assert_eq!(
        xsd("hexBinary").parse("0aFF"),
        Ok(Value::HexBinary(HexBinaryBuf::from_bytes(vec![10, 255])))
    );
    assert_eq!(
        xsd("hexBinary").parse("0aF"),
        Err(ParseError::InvalidLexicalForm(LexicalError::UnexpectedEnd))
    );
    assert_eq!(
        xsd("base64Binary").parse("aGVsbG8="),
        Ok(Value::Base64Binary(Base64BinaryBuf::from_bytes(b"hello".to_vec())))
    );
    assert_eq!(
        xsd("base64Binary").parse("aGVsbG8"),
        Err(ParseError::InvalidLexicalForm(LexicalError::Malformed))
    );
    assert_eq!(
        xsd("anyURI").parse("http://example.org/a?b#c"),
        Ok(Value::AnyUri(AnyUriBuf::new("http://example.org/a?b#c").unwrap()))
    );
    assert_eq!(
        xsd("anyURI").parse("no uri"),
        Err(ParseError::InvalidLexicalForm(LexicalError::Malformed))
    );
    assert_eq!(
        xsd("float").parse("1.0E10"),
        Ok(Value::Float(FloatBuf::new("1.0E10").unwrap()))
    );
    assert_eq!(xsd("double").parse("NaN"), Ok(Value::Double(DoubleBuf::new("NaN").unwrap())));
    assert_eq!(
        xsd("double").parse("nan"),
        Err(ParseError::InvalidLexicalForm(LexicalError::Malformed))
    );
}

#[test]
fn unsupported_datatypes_are_refused() {
    for name in [
        "duration", "dateTime", "time", "date", "gYearMonth", "gYear", "gMonthDay", "gDay",
        "gMonth", "QName", "NOTATION", "normalizedString", "token", "language",
        "Name", "NMTOKEN", "NCName", "ID", "IDREF", "ENTITY",
    ] {
        assert_eq!(xsd(name).parse("x"), Err(ParseError::Unsupported), "{}", name);
        assert_eq!(xsd(name).parse(""), Err(ParseError::Unsupported), "{}", name);
    }
    let id = Datatype::String(Some(StringDatatype::NormalizedString(Some(
        NormalizedStringDatatype::Token(Some(TokenDatatype::Name(Some(NameDatatype::NCName(
            Some(NCNameDatatype::Id),
        ))))),
    ))));
    assert_eq!(id.parse("a1"), Err(ParseError::Unsupported));
}

#[test]
fn derived_datatypes_parse_like_the_catalogue() {
    let byte = ShortDatatype::Byte;
    assert_eq!(byte.parse("-5"), Ok(Value::Byte(-5)));
    assert_eq!(IntDatatype::Short(None).parse("-500"), Ok(Value::Short(-500)));
    assert_eq!(IntDatatype::Short(Some(byte)).parse("-5"), Ok(Value::Byte(-5)));
    assert_eq!(LongDatatype::Int(None).parse("70000"), Ok(Value::Int(70000)));
    assert_eq!(IntegerDatatype::Long(None).parse("-1"), Ok(Value::Long(-1)));
    assert_eq!(
        DecimalDatatype::Integer(None).parse("12"),
        Ok(Value::Integer(Integer::from_i128(12)))
    );
    assert_eq!(
        NonPositiveIntegerDatatype::NegativeInteger.parse("-3"),
        Ok(Value::NegativeInteger(NegativeInteger::from_str("-3").unwrap()))
    );
    assert_eq!(UnsignedShortDatatype::UnsignedByte.parse("200"), Ok(Value::UnsignedByte(200)));
    assert_eq!(
        UnsignedIntDatatype::UnsignedShort(None).parse("60000"),
        Ok(Value::UnsignedShort(60000))
    );
    assert_eq!(
        UnsignedLongDatatype::UnsignedInt(None).parse("4000000000"),
        Ok(Value::UnsignedInt(4000000000))
    );
    assert_eq!(
        NonNegativeIntegerDatatype::UnsignedLong(None).parse("1"),
        Ok(Value::UnsignedLong(1))
    );
    assert_eq!(
        NonNegativeIntegerDatatype::PositiveInteger.parse("0"),
        Err(ParseError::InvalidLexicalForm(LexicalError::OutOfRange))
    );
}

#[test]
fn parse_rdf_of_each_type() {
    assert_eq!(bool::parse_rdf("true"), Ok(true));
    assert_eq!(
        bool::parse_rdf("maybe"),
        Err(ParseRdfError::InvalidLexicalForm(LexicalError::Malformed))
    );
    assert_eq!(Integer::parse_rdf("-12"), Ok(integer("-12")));
    assert_eq!(u8::parse_rdf("12"), Ok(12));
    assert_eq!(u8::parse_rdf("1200"), Err(ParseRdfError::InvalidValue(integer("1200"))));
    assert_eq!(
        i64::parse_rdf("12x"),
        Err(ParseRdfError::InvalidLexicalForm(LexicalError::UnexpectedCharacter(2)))
    );
    assert_eq!(String::parse_rdf("x y"), Ok("x y".to_string()));
    assert_eq!(Decimal::parse_rdf("0.10").unwrap().to_string(), "0.1");
    assert_eq!(HexBinaryBuf::parse_rdf("ff").unwrap().as_bytes(), &[255]);
    assert!(FloatBuf::parse_rdf("1e").is_err());
    assert!(AnyUriBuf::parse_rdf("a:b").is_ok());
}

#[test]
fn canonical_literals_parse_to_the_same_value() {
    let cases = [
        ("integer", "-007"),
        ("integer", "+0"),
        ("nonNegativeInteger", "-0"),
        ("positiveInteger", "+0099"),
        ("nonPositiveInteger", "+000"),
        ("negativeInteger", "-0001"),
        ("long", "-09223372036854775808"),
        ("int", "+12"),
        ("short", "-012"),
        ("byte", "+000"),
        ("unsignedLong", "018446744073709551615"),
        ("unsignedInt", "+7"),
        ("unsignedShort", "-0"),
        ("unsignedByte", "0255"),
        ("decimal", "-00.0500"),
        ("decimal", "7"),
        ("boolean", "1"),
        ("boolean", "0"),
        ("hexBinary", "deadBEEF"),
        ("base64Binary", "aGVs bG8="),
        ("base64Binary", ""),
        ("string", " x "),
        ("anyURI", "http://example.org/"),
    ];
    for (name, text) in cases {
        let d = xsd(name);
        let v = d.parse(text).unwrap();
        assert_eq!(v.datatype(), d);
        let canonical = v.lexical_representation();
        let w = d.parse(&canonical).unwrap();
        assert_eq!(w, v, "{} {}", name, text);
        assert_eq!(w.lexical_representation(), canonical, "{} {}", name, text);
    }
}

#[test]
fn canonical_literals_of_values() {
    assert_eq!(Value::Boolean(true).lexical_representation(), "true");
    assert_eq!(Value::Boolean(false).lexical_representation(), "false");
    assert_eq!(Value::Byte(-128).lexical_representation(), "-128");
    assert_eq!(Value::Long(i64::MIN).lexical_representation(), "-9223372036854775808");
    assert_eq!(Value::UnsignedLong(u64::MAX).lexical_representation(), "18446744073709551615");
    assert_eq!(Value::UnsignedShort(0).lexical_representation(), "0");
    assert_eq!(xsd("decimal").parse("1").unwrap().lexical_representation(), "1.0");
    assert_eq!(xsd("hexBinary").parse("0a").unwrap().lexical_representation(), "0A");
    assert_eq!(xsd("float").parse("1.0e10").unwrap().lexical_representation(), "1.0e10");
}
