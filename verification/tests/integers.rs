use xsd_types::lexical::LexicalError;
use xsd_types::value::integer::{XsdInt, XsdLong, XsdShort};
use xsd_types::value::non_negative_integer::{XsdUnsignedInt, XsdUnsignedLong, XsdUnsignedShort};
use xsd_types::{
    ArithmeticError, Datatype, DecimalDatatype, IntDatatype, Integer, IntegerDatatype,
    IntegerIsNegative, IntegerIsPositive, LongDatatype, NegativeInteger, NonNegativeInteger,
    NonNegativeIntegerDatatype, NonPositiveInteger, NonPositiveIntegerDatatype, PositiveInteger,
    ShortDatatype, UnsignedIntDatatype, UnsignedLongDatatype, UnsignedShortDatatype, XsdDatatype,
};

fn integer(s: &str) -> Integer {
    Integer::from_str(s).unwrap()
}

fn non_negative(s: &str) -> NonNegativeInteger {
    NonNegativeInteger::from_str(s).unwrap()
}

fn unsigned_byte() -> NonNegativeIntegerDatatype {
    NonNegativeIntegerDatatype::UnsignedLong(Some(UnsignedLongDatatype::UnsignedInt(Some(
        UnsignedIntDatatype::UnsignedShort(Some(UnsignedShortDatatype::UnsignedByte)),
    ))))
}

fn unsigned_short() -> NonNegativeIntegerDatatype {
    NonNegativeIntegerDatatype::UnsignedLong(Some(UnsignedLongDatatype::UnsignedInt(Some(
        UnsignedIntDatatype::UnsignedShort(None),
    ))))
}

fn unsigned_int() -> NonNegativeIntegerDatatype {
    NonNegativeIntegerDatatype::UnsignedLong(Some(UnsignedLongDatatype::UnsignedInt(None)))
}

#[test]
fn integer_with_leading_zeros() {
    let v = integer("007");
    assert_eq!(v, Integer::from_i128(7));
    assert_eq!(v.to_string(), "7");
    assert_eq!(v.lexical_representation().as_str(), "7");
}

#[test]
fn integer_signs_and_zero() {
    assert_eq!(integer("+5"), integer("5"));
    assert_eq!(integer("05"), integer("5"));
    assert_eq!(integer("-0"), integer("0"));
    assert_eq!(integer("+0").to_string(), "0");
    assert_eq!(integer("-0").to_string(), "0");
    assert_eq!(integer("-0012").to_string(), "-12");
    assert!(integer("0").is_zero());
    assert!(integer("-3").is_negative());
    assert!(!integer("-3").is_positive());
    assert!(integer("3").is_positive());
    assert!(!integer("0").is_positive());
    assert!(!integer("0").is_negative());
    assert!(Integer::zero().is_zero());
}

#[test]
fn integer_beyond_machine_width() {
    let big = "123456789012345678901234567890123456789012345678901234567890";
    let v = integer(big);
    assert_eq!(v.to_string(), big);
    assert_eq!(v.to_i128(), None);
    let w = integer("-000123456789012345678901234567890123456789012345678901234567890");
    assert_eq!(w.to_string(), format!("-{}", big));
    assert_eq!(v.add(&w), Integer::zero());
}

#[test]
fn integer_lexical_errors() {
    assert_eq!(Integer::from_str("").err(), Some(LexicalError::Empty));
    assert_eq!(Integer::from_str("+").err(), Some(LexicalError::UnexpectedEnd));
    assert_eq!(Integer::from_str("-").err(), Some(LexicalError::UnexpectedEnd));
    assert_eq!(Integer::from_str("12a").err(), Some(LexicalError::UnexpectedCharacter(2)));
    assert_eq!(Integer::from_str("a").err(), Some(LexicalError::UnexpectedCharacter(0)));
    assert_eq!(Integer::from_str("+-1").err(), Some(LexicalError::UnexpectedCharacter(1)));
    assert_eq!(Integer::from_str("1+").err(), Some(LexicalError::UnexpectedCharacter(1)));
    assert_eq!(Integer::from_str("1.0").err(), Some(LexicalError::UnexpectedCharacter(1)));
    assert_eq!(Integer::from_str(" 1").err(), Some(LexicalError::UnexpectedCharacter(0)));
    assert_eq!(Integer::from_str("1_000").err(), Some(LexicalError::UnexpectedCharacter(1)));
    assert_eq!(Integer::from_str("１２").err(), Some(LexicalError::NonAscii));
    assert_eq!(Integer::from_str("12é").err(), Some(LexicalError::NonAscii));
}

#[test]
fn integer_arithmetic() {
    assert_eq!(integer("2").add(&integer("3")), integer("5"));
    assert_eq!(integer("2").sub(&integer("3")), integer("-1"));
    assert_eq!(integer("-4").mul(&integer("6")), integer("-24"));
    assert_eq!(integer("7").checked_div(&integer("2")), Some(integer("3")));
    assert_eq!(integer("-7").checked_div(&integer("2")), Some(integer("-3")));
    assert_eq!(integer("7").checked_div(&integer("-2")), Some(integer("-3")));
    assert_eq!(integer("-7").checked_div(&integer("-2")), Some(integer("3")));
    assert_eq!(integer("0").checked_div(&integer("5")), Some(integer("0")));
    assert_eq!(integer("7").checked_div(&integer("0")), None);
    assert_eq!(
        integer("340282366920938463463374607431768211456").mul(&integer("2")),
        integer("680564733841876926926749214863536422912")
    );
}

#[test]
fn integer_order_and_equality() {
    assert!(integer("-5").le(&integer("3")));
    assert!(integer("3").le(&integer("3")));
    assert!(!integer("4").le(&integer("3")));
    assert!(integer("9").le(&integer("10")));
    assert!(integer("-10").le(&integer("-9")));
    assert!(integer("007").eq(&integer("7")));
    assert!(!integer("7").eq(&integer("-7")));
}

#[test]
fn integer_from_and_to_machine_integers() {
    assert_eq!(Integer::from_i128(-128).to_string(), "-128");
    assert_eq!(Integer::from_i128(i128::MAX).to_i128(), Some(i128::MAX));
    assert_eq!(Integer::from_i128(i128::MIN).to_i128(), Some(i128::MIN));
    assert_eq!(integer("255").to_u8().ok(), Some(255));
    assert_eq!(integer("256").to_u8().err().map(|e| e.0), Some(integer("256")));
    assert_eq!(integer("-1").to_u8().err().map(|e| e.0), Some(integer("-1")));
    assert_eq!(integer("-128").to_i8().ok(), Some(-128));
    assert_eq!(integer("-129").to_i8().err().map(|e| e.0), Some(integer("-129")));
    assert_eq!(integer("127").to_i8().ok(), Some(127));
    assert_eq!(integer("128").to_i8().err().map(|e| e.0), Some(integer("128")));
    assert_eq!(integer("65535").to_u16().ok(), Some(u16::MAX));
    assert!(integer("65536").to_u16().is_err());
    assert_eq!(integer("-32768").to_i16().ok(), Some(i16::MIN));
    assert!(integer("-32769").to_i16().is_err());
    assert_eq!(integer("4294967295").to_u32().ok(), Some(u32::MAX));
    assert!(integer("4294967296").to_u32().is_err());
    assert_eq!(integer("-2147483648").to_i32().ok(), Some(i32::MIN));
    assert!(integer("2147483648").to_i32().is_err());
    assert_eq!(integer("18446744073709551615").to_u64().ok(), Some(u64::MAX));
    assert!(integer("18446744073709551616").to_u64().is_err());
    assert_eq!(integer("-9223372036854775808").to_i64().ok(), Some(i64::MIN));
    assert!(integer("9223372036854775808").to_i64().is_err());
    assert_eq!(integer("42").to_usize().ok(), Some(42));
    assert_eq!(integer("-42").to_isize().ok(), Some(-42));
    assert!(integer("-1").to_usize().is_err());
}

#[test]
fn narrowing_switches_rung_at_255() {
    assert_eq!(non_negative("0").non_negative_integer_type(), Some(unsigned_byte()));
    assert_eq!(non_negative("255").non_negative_integer_type(), Some(unsigned_byte()));
    assert_eq!(non_negative("256").non_negative_integer_type(), Some(unsigned_short()));
}

#[test]
fn narrowing_switches_rung_at_65535() {
    assert_eq!(non_negative("65535").non_negative_integer_type(), Some(unsigned_short()));
    assert_eq!(non_negative("65536").non_negative_integer_type(), Some(unsigned_int()));
}

#[test]
fn narrowing_switches_rung_at_4294967295() {
    assert_eq!(non_negative("4294967295").non_negative_integer_type(), Some(unsigned_int()));
    assert_eq!(
        non_negative("4294967296").non_negative_integer_type(),
        Some(NonNegativeIntegerDatatype::UnsignedLong(None))
    );
}

#[test]
fn narrowing_switches_rung_at_u64_max() {
    assert_eq!(
        non_negative("18446744073709551615").non_negative_integer_type(),
        Some(NonNegativeIntegerDatatype::UnsignedLong(None))
    );
    assert_eq!(
        non_negative("18446744073709551616").non_negative_integer_type(),
        Some(NonNegativeIntegerDatatype::PositiveInteger)
    );
    assert_eq!(
        non_negative("340282366920938463463374607431768211456").non_negative_integer_type(),
        Some(NonNegativeIntegerDatatype::PositiveInteger)
    );
}

#[test]
fn narrowing_of_machine_integers() {
    assert_eq!(
        255u64.unsigned_long_type(),
        Some(UnsignedLongDatatype::UnsignedInt(Some(UnsignedIntDatatype::UnsignedShort(Some(
            UnsignedShortDatatype::UnsignedByte
        )))))
    );
    assert_eq!(
        256u64.unsigned_long_type(),
        Some(UnsignedLongDatatype::UnsignedInt(Some(UnsignedIntDatatype::UnsignedShort(None))))
    );
    assert_eq!(65536u64.unsigned_long_type(), Some(UnsignedLongDatatype::UnsignedInt(None)));
    assert_eq!(4294967296u64.unsigned_long_type(), None);
    assert_eq!(
        255u32.unsigned_int_type(),
        Some(UnsignedIntDatatype::UnsignedShort(Some(UnsignedShortDatatype::UnsignedByte)))
    );
    assert_eq!(65535u32.unsigned_int_type(), Some(UnsignedIntDatatype::UnsignedShort(None)));
    assert_eq!(65536u32.unsigned_int_type(), None);
    assert_eq!(255u16.unsigned_short_type(), Some(UnsignedShortDatatype::UnsignedByte));
    assert_eq!(256u16.unsigned_short_type(), None);
    assert_eq!(
        (-128i64).long_type(),
        Some(LongDatatype::Int(Some(IntDatatype::Short(Some(ShortDatatype::Byte)))))
    );
    assert_eq!((-129i64).long_type(), Some(LongDatatype::Int(Some(IntDatatype::Short(None)))));
    assert_eq!(32768i64.long_type(), Some(LongDatatype::Int(None)));
    assert_eq!(2147483648i64.long_type(), None);
    assert_eq!(127i32.int_type(), Some(IntDatatype::Short(Some(ShortDatatype::Byte))));
    assert_eq!(128i32.int_type(), Some(IntDatatype::Short(None)));
    assert_eq!((-32769i32).int_type(), None);
    assert_eq!(127i16.short_type(), Some(ShortDatatype::Byte));
    assert_eq!((-129i16).short_type(), None);
}

#[test]
fn narrowest_datatype_of_values() {
    let byte = Datatype::Decimal(Some(DecimalDatatype::Integer(Some(
        IntegerDatatype::NonNegativeInteger(Some(unsigned_byte())),
    ))));
    assert_eq!(7u8.type_(), byte);
    assert_eq!(7u16.type_(), byte);
    assert_eq!(7u32.type_(), byte);
    assert_eq!(7u64.type_(), byte);
    assert_eq!(non_negative("7").type_(), byte);
    assert_eq!(integer("7").type_(), byte);
    assert_eq!(
        integer("-7").integer_type(),
        Some(IntegerDatatype::Long(Some(LongDatatype::Int(Some(IntDatatype::Short(Some(
            ShortDatatype::Byte
        )))))))
    );
    assert_eq!(integer("-9223372036854775808").integer_type(), Some(IntegerDatatype::Long(None)));
    assert_eq!(
        integer("-9223372036854775809").integer_type(),
        Some(IntegerDatatype::NonPositiveInteger(Some(
            NonPositiveIntegerDatatype::NegativeInteger
        )))
    );
    assert_eq!(
        integer("18446744073709551616").integer_type(),
        Some(IntegerDatatype::NonNegativeInteger(Some(
            NonNegativeIntegerDatatype::PositiveInteger
        )))
    );
    assert_eq!(
        NonPositiveInteger::from_str("-5").unwrap().non_positive_integer_type(),
        Some(NonPositiveIntegerDatatype::NegativeInteger)
    );
    assert_eq!(NonPositiveInteger::zero().non_positive_integer_type(), None);
}

#[test]
fn non_negative_integer_literals() {
    assert_eq!(non_negative("+5").as_integer(), &integer("5"));
    assert_eq!(non_negative("-0").as_integer(), &integer("0"));
    assert_eq!(non_negative("-000").to_string(), "0");
    assert_eq!(NonNegativeInteger::from_str("-1").err(), Some(LexicalError::OutOfRange));
    assert_eq!(NonNegativeInteger::from_str("-").err(), Some(LexicalError::UnexpectedEnd));
    assert_eq!(
        NonNegativeInteger::from_str("1x").err(),
        Some(LexicalError::UnexpectedCharacter(1))
    );
    assert!(NonNegativeInteger::zero().is_zero());
}

#[test]
fn sign_restricted_literals() {
    assert_eq!(PositiveInteger::from_str("0").err(), Some(LexicalError::OutOfRange));
    assert_eq!(PositiveInteger::from_str("+0").err(), Some(LexicalError::OutOfRange));
    assert_eq!(PositiveInteger::from_str("-5").err(), Some(LexicalError::OutOfRange));
    assert_eq!(PositiveInteger::from_str("01").unwrap().to_string(), "1");
    assert!(PositiveInteger::from_str("1").unwrap().is_one());
    assert!(!PositiveInteger::from_str("11").unwrap().is_one());
    assert_eq!(NonPositiveInteger::from_str("5").err(), Some(LexicalError::OutOfRange));
    assert_eq!(NonPositiveInteger::from_str("+0").unwrap().to_string(), "0");
    assert_eq!(NonPositiveInteger::from_str("0").unwrap().to_string(), "0");
    assert_eq!(NonPositiveInteger::from_str("-05").unwrap().to_string(), "-5");
    assert_eq!(NegativeInteger::from_str("-0").err(), Some(LexicalError::OutOfRange));
    assert_eq!(NegativeInteger::from_str("0").err(), Some(LexicalError::OutOfRange));
    assert_eq!(NegativeInteger::from_str("1").err(), Some(LexicalError::OutOfRange));
    assert!(NegativeInteger::from_str("-1").unwrap().is_minus_one());
    assert!(!NegativeInteger::from_str("-10").unwrap().is_minus_one());
}

#[test]
fn bounded_integers_from_integers() {
    assert_eq!(NonNegativeInteger::try_from(integer("0")).unwrap().to_string(), "0");
    assert_eq!(NonNegativeInteger::try_from(integer("-1")), Err(IntegerIsNegative(integer("-1"))));
    assert_eq!(NonPositiveInteger::try_from(integer("1")), Err(IntegerIsPositive(integer("1"))));
    assert_eq!(NonPositiveInteger::try_from(integer("0")).unwrap().to_string(), "0");
    assert!(PositiveInteger::try_from(integer("0")).is_err());
    assert!(PositiveInteger::try_from(integer("1")).is_ok());
    assert!(NegativeInteger::try_from(integer("0")).is_err());
    assert!(NegativeInteger::try_from(integer("-1")).is_ok());
}

#[test]
fn subtracting_a_larger_non_negative_integer_is_an_error() {
    let small = non_negative("3");
    let large = non_negative("5");
    assert_eq!(
        small.checked_sub(large.as_integer()),
        Err(ArithmeticError::OutOfBounds(integer("-2")))
    );
    assert_eq!(large.checked_sub(small.as_integer()), Ok(non_negative("2")));
    assert_eq!(small.checked_sub(small.as_integer()), Ok(non_negative("0")));
}

#[test]
fn bounded_arithmetic() {
    let a = non_negative("6");
    assert_eq!(a.checked_add(&integer("4")), Ok(non_negative("10")));
    assert_eq!(a.checked_add(&integer("-7")), Err(ArithmeticError::OutOfBounds(integer("-1"))));
    assert_eq!(a.checked_mul(&integer("-2")), Err(ArithmeticError::OutOfBounds(integer("-12"))));
    assert_eq!(a.checked_mul(&integer("0")), Ok(non_negative("0")));
    assert_eq!(a.checked_div(&integer("4")), Ok(non_negative("1")));
    assert_eq!(a.checked_div(&integer("0")), Err(ArithmeticError::DivisionByZero));
    assert_eq!(a.checked_div(&integer("-4")), Err(ArithmeticError::OutOfBounds(integer("-1"))));
    assert_eq!(a.checked_div(&integer("-7")), Ok(non_negative("0")));
    let p = PositiveInteger::from_str("2").unwrap();
    assert_eq!(p.checked_sub(&integer("2")), Err(ArithmeticError::OutOfBounds(integer("0"))));
    assert_eq!(p.checked_div(&integer("3")), Err(ArithmeticError::OutOfBounds(integer("0"))));
    assert_eq!(p.checked_add(&Integer::from_i128(1)).unwrap().to_string(), "3");
    let n = NegativeInteger::from_str("-2").unwrap();
    assert_eq!(n.checked_mul(&integer("-1")), Err(ArithmeticError::OutOfBounds(integer("2"))));
    assert_eq!(n.checked_mul(&integer("3")).unwrap().to_string(), "-6");
    let z = NonPositiveInteger::from_str("-2").unwrap();
    assert_eq!(z.checked_add(&integer("2")).unwrap().to_string(), "0");
    assert_eq!(z.checked_add(&integer("3")), Err(ArithmeticError::OutOfBounds(integer("1"))));
}

#[test]
fn bounded_integers_to_machine_integers() {
    assert_eq!(non_negative("255").to_u8().ok(), Some(255));
    assert_eq!(non_negative("256").to_u8().err().map(|e| e.0), Some(non_negative("256")));
    assert_eq!(non_negative("127").to_i8().ok(), Some(127));
    assert!(non_negative("128").to_i8().is_err());
    assert_eq!(non_negative("18446744073709551615").to_u64().ok(), Some(u64::MAX));
    assert!(non_negative("18446744073709551616").to_u64().is_err());
    let n = NonPositiveInteger::from_str("-128").unwrap();
    assert_eq!(n.clone().to_i8().ok(), Some(-128));
    assert_eq!(n.clone().to_u8().err().map(|e| e.0), Some(n.clone()));
    assert_eq!(NonPositiveInteger::zero().to_u8().ok(), Some(0));
}

#[test]
fn embeddings_keep_the_value() {
    let p = PositiveInteger::from_str("12").unwrap();
    let direct = p.as_integer().clone();
    let by_steps = p.into_non_negative_integer().into_integer();
    assert_eq!(direct, by_steps);
    let n = NegativeInteger::from_str("-12").unwrap();
    assert_eq!(n.as_integer().clone(), n.into_non_positive_integer().into_integer());
}
