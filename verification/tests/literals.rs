use xsd_types::lexical::boolean::{boolean_lexical_representation, scan_boolean, BooleanBuf};
use xsd_types::lexical::decimal::check_decimal;
use xsd_types::lexical::float::{check_float, DoubleBuf, FloatBuf};
use xsd_types::lexical::hex_binary::{decode_hex_binary, encode_hex_binary};
use xsd_types::lexical::integer::{
    check_integer, check_negative_integer, check_non_negative_integer,
    check_non_positive_integer, check_positive_integer, scan_integer, IntegerBuf,
    NonNegativeIntegerBuf, Sign,
};
use xsd_types::lexical::LexicalError;
use xsd_types::{AnyUriBuf, Decimal, HexBinaryBuf, Integer};

#[test]
fn integer_literals_and_their_sign() {
    assert_eq!(scan_integer("0"), Ok(Sign::NoSign));
    assert_eq!(scan_integer("-000"), Ok(Sign::NoSign));
    assert_eq!(scan_integer("+0"), Ok(Sign::NoSign));
    assert_eq!(scan_integer("007"), Ok(Sign::Plus));
    assert_eq!(scan_integer("+7"), Ok(Sign::Plus));
    assert_eq!(scan_integer("-0100"), Ok(Sign::Minus));
    assert_eq!(check_integer("12345678901234567890123456789"), Ok(()));
    assert_eq!(check_integer("12 3"), Err(LexicalError::UnexpectedCharacter(2)));
    assert_eq!(check_integer("--1"), Err(LexicalError::UnexpectedCharacter(1)));
}

#[test]
fn restricted_integer_validators() {
    assert_eq!(check_non_negative_integer("+5"), Ok(()));
    assert_eq!(check_non_negative_integer("-0"), Ok(()));
    assert_eq!(check_non_negative_integer("-1"), Err(LexicalError::OutOfRange));
    assert_eq!(check_positive_integer("1"), Ok(()));
    assert_eq!(check_positive_integer("000"), Err(LexicalError::OutOfRange));
    assert_eq!(check_non_positive_integer("-5"), Ok(()));
    assert_eq!(check_non_positive_integer("+0"), Ok(()));
    assert_eq!(check_non_positive_integer("+1"), Err(LexicalError::OutOfRange));
    assert_eq!(check_negative_integer("-1"), Ok(()));
    assert_eq!(check_negative_integer("-0"), Err(LexicalError::OutOfRange));
    assert_eq!(check_negative_integer(""), Err(LexicalError::Empty));
    assert_eq!(check_negative_integer("-x"), Err(LexicalError::UnexpectedCharacter(1)));
}

#[test]
fn validated_integer_literals_keep_their_text() {
    let l = IntegerBuf::new("+007").unwrap();
    assert_eq!(l.as_str(), "+007");
    assert_eq!(l.value(), Integer::from_i128(7));
    assert_eq!(l.clone().into_string(), "+007");
    let n = NonNegativeIntegerBuf::new("-0").unwrap();
    assert_eq!(n.as_str(), "-0");
    assert_eq!(n.value().to_string(), "0");
    assert!(NonNegativeIntegerBuf::new("-2").is_err());
}

#[test]
fn decimal_literals() {
    assert_eq!(check_decimal(".5"), Ok(()));
    assert_eq!(check_decimal("5."), Ok(()));
    assert_eq!(check_decimal("5"), Ok(()));
    assert_eq!(check_decimal("-1.50"), Ok(()));
    assert_eq!(check_decimal("+0.0"), Ok(()));
    assert_eq!(check_decimal("."), Err(LexicalError::UnexpectedEnd));
    assert_eq!(check_decimal("-."), Err(LexicalError::UnexpectedEnd));
    assert_eq!(check_decimal("+"), Err(LexicalError::UnexpectedEnd));
    assert_eq!(check_decimal(""), Err(LexicalError::Empty));
    assert_eq!(check_decimal("1.2.3"), Err(LexicalError::UnexpectedCharacter(3)));
    assert_eq!(check_decimal("1e5"), Err(LexicalError::UnexpectedCharacter(1)));
    assert_eq!(check_decimal("1,5"), Err(LexicalError::UnexpectedCharacter(1)));
    assert_eq!(check_decimal("1-"), Err(LexicalError::UnexpectedCharacter(1)));
    assert_eq!(check_decimal("١"), Err(LexicalError::NonAscii));
}

#[test]
fn decimal_values() {
    let d = Decimal::from_str("-01.500").unwrap();
    assert_eq!(d.unscaled(), &Integer::from_i128(-15));
    assert_eq!(d.scale(), 1);
    assert_eq!(d.to_string(), "-1.5");
    assert_eq!(Decimal::from_str("1.50").unwrap(), Decimal::from_str("+1.5").unwrap());
    assert_eq!(Decimal::from_str("5").unwrap(), Decimal::from_str("5.").unwrap());
    assert_eq!(Decimal::from_str("5").unwrap(), Decimal::from_str("005.000").unwrap());
    assert_eq!(Decimal::from_str("-0").unwrap(), Decimal::from_str(".0").unwrap());
    assert_ne!(Decimal::from_str("1.5").unwrap(), Decimal::from_str("15").unwrap());
}

#[test]
fn canonical_decimal_literals() {
    let canonical = |s: &str| Decimal::from_str(s).unwrap().to_string();
    assert_eq!(canonical("5"), "5.0");
    assert_eq!(canonical("0"), "0.0");
    assert_eq!(canonical("-0.0"), "0.0");
    assert_eq!(canonical(".5"), "0.5");
    assert_eq!(canonical("-.5"), "-0.5");
    assert_eq!(canonical("00.0500"), "0.05");
    assert_eq!(canonical("12.3400"), "12.34");
    assert_eq!(canonical("+100"), "100.0");
    assert_eq!(canonical("-100.001"), "-100.001");
    assert_eq!(canonical("0.000000000000000000000000001"), "0.000000000000000000000000001");
    for s in ["5.0", "0.0", "0.5", "-0.5", "0.05", "12.34", "100.0", "-100.001"] {
        assert_eq!(canonical(s), s);
    }
}

#[test]
fn boolean_literals() {
    assert_eq!(scan_boolean("true"), Ok(true));
    assert_eq!(scan_boolean("1"), Ok(true));
    assert_eq!(scan_boolean("false"), Ok(false));
    assert_eq!(scan_boolean("0"), Ok(false));
    assert_eq!(scan_boolean(""), Err(LexicalError::Empty));
    assert_eq!(scan_boolean("True"), Err(LexicalError::Malformed));
    assert_eq!(scan_boolean("TRUE"), Err(LexicalError::Malformed));
    assert_eq!(scan_boolean("yes"), Err(LexicalError::Malformed));
    assert_eq!(scan_boolean("01"), Err(LexicalError::Malformed));
    assert_eq!(scan_boolean(" true"), Err(LexicalError::Malformed));
    assert_eq!(BooleanBuf::new("1").unwrap().value(), true);
    assert_eq!(BooleanBuf::new("0").unwrap().as_str(), "0");
    assert_eq!(boolean_lexical_representation(true).as_str(), "true");
    assert_eq!(boolean_lexical_representation(false).as_str(), "false");
}

#[test]
fn float_literals() {
    for s in [
        "0", "-0", "1.0E10", "1.0e10", "1e5", "1E-5", "+1.5e+007", ".5", "5.", "-.5E0", "INF",
        "-INF", "NaN", "12",
    ] {
        assert_eq!(check_float(s), Ok(()), "{}", s);
    }
    for s in [
        "inf", "+INF", "nan", "NAN", "1e", "e5", "1e5.0", ".", ".e1", "1e+", "1ee5", "1e5e5",
        "0x10", "1 ", "--1", "INFINITY", "1.0f", "-NaN",
    ] {
        assert_eq!(check_float(s), Err(LexicalError::Malformed), "{}", s);
    }
    assert_eq!(check_float(""), Err(LexicalError::Empty));
    assert_eq!(check_float("1.0é"), Err(LexicalError::NonAscii));
    assert_eq!(FloatBuf::new("1.0E10").unwrap().as_str(), "1.0E10");
    assert_eq!(DoubleBuf::new("-INF").unwrap().into_string(), "-INF");
    assert!(DoubleBuf::new("Infinity").is_err());
}

#[test]
fn hex_binary_literals() {
    assert_eq!(decode_hex_binary(""), Ok(vec![]));
    assert_eq!(decode_hex_binary("00"), Ok(vec![0]));
    assert_eq!(decode_hex_binary("0fB7"), Ok(vec![0x0f, 0xb7]));
    assert_eq!(decode_hex_binary("DEADbeef"), Ok(vec![0xde, 0xad, 0xbe, 0xef]));
    assert_eq!(decode_hex_binary("0"), Err(LexicalError::UnexpectedEnd));
    assert_eq!(decode_hex_binary("abc"), Err(LexicalError::UnexpectedEnd));
    assert_eq!(decode_hex_binary("0g"), Err(LexicalError::UnexpectedCharacter(1)));
    assert_eq!(decode_hex_binary("0x10"), Err(LexicalError::UnexpectedCharacter(1)));
    assert_eq!(decode_hex_binary("ab cd"), Err(LexicalError::UnexpectedCharacter(2)));
    assert_eq!(decode_hex_binary("ａ"), Err(LexicalError::NonAscii));
    assert_eq!(encode_hex_binary(&[]), "");
    assert_eq!(encode_hex_binary(&[0x0f, 0xb7, 0x00, 0xff, 0x9a]), "0FB700FF9A");
}

#[test]
fn hex_binary_round_trip() {
    let bytes: Vec<u8> = (0..=255).collect();
    let text = HexBinaryBuf::from_bytes(bytes.clone()).to_string();
    assert_eq!(text.len(), 512);
    let back = HexBinaryBuf::from_str(&text).unwrap();
    assert_eq!(back.as_bytes(), bytes.as_slice());
    assert_eq!(back.to_string(), text);
    assert_eq!(HexBinaryBuf::from_str(&text.to_lowercase()).unwrap().into_bytes(), bytes);
}

#[test]
fn uris() {
    let u = AnyUriBuf::new("http://www.w3.org/2001/XMLSchema#anyURI").unwrap();
    assert_eq!(u.as_str(), "http://www.w3.org/2001/XMLSchema#anyURI");
    assert!(AnyUriBuf::new("urn:isbn:0451450523").is_ok());
    assert!(AnyUriBuf::new("mailto:someone@example.org").is_ok());
    assert_eq!(AnyUriBuf::new("not a uri").err(), Some(LexicalError::Malformed));
    assert_eq!(AnyUriBuf::new("").err(), Some(LexicalError::Malformed));
    assert_eq!(AnyUriBuf::new("relative/path").err(), Some(LexicalError::Malformed));
    assert_eq!(AnyUriBuf::new("http://exa mple.org/").err(), Some(LexicalError::Malformed));
    assert_eq!(AnyUriBuf::from_validated("x:y", true).unwrap().into_string(), "x:y");
    assert!(AnyUriBuf::from_validated("x y", false).is_err());
}
