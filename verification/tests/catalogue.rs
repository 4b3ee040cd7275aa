use xsd_types::datatype::{
    XSD_ANY_URI, XSD_BOOLEAN, XSD_BYTE, XSD_DECIMAL, XSD_ENTITIES, XSD_IDREFS, XSD_INTEGER,
    XSD_NMTOKENS, XSD_POSITIVE_INTEGER, XSD_STRING, XSD_UNSIGNED_BYTE,
};
use xsd_types::{
    Datatype, DecimalDatatype, IntDatatype, IntegerDatatype, LongDatatype, NCNameDatatype,
    NameDatatype, NonNegativeIntegerDatatype, NonPositiveIntegerDatatype,
    NormalizedStringDatatype, ShortDatatype, StringDatatype, TokenDatatype, UnsignedIntDatatype,
    UnsignedLongDatatype, UnsignedShortDatatype,
};

fn integer(t: Option<IntegerDatatype>) -> Datatype {
    Datatype::Decimal(Some(DecimalDatatype::Integer(t)))
}

fn token(t: Option<TokenDatatype>) -> Datatype {
    Datatype::String(Some(StringDatatype::NormalizedString(Some(
        NormalizedStringDatatype::Token(t),
    ))))
}

fn all_datatypes() -> Vec<Datatype> {
    vec![
        Datatype::String(None),
        Datatype::String(Some(StringDatatype::NormalizedString(None))),
        token(None),
        token(Some(TokenDatatype::Language)),
        token(Some(TokenDatatype::NMToken)),
        token(Some(TokenDatatype::Name(None))),
        token(Some(TokenDatatype::Name(Some(NameDatatype::NCName(None))))),
        token(Some(TokenDatatype::Name(Some(NameDatatype::NCName(Some(NCNameDatatype::Id)))))),
        token(Some(TokenDatatype::Name(Some(NameDatatype::NCName(Some(
            NCNameDatatype::IdRef,
        )))))),
        token(Some(TokenDatatype::Name(Some(NameDatatype::NCName(Some(
            NCNameDatatype::Entity,
        )))))),
        Datatype::Boolean,
        Datatype::Decimal(None),
        integer(None),
        integer(Some(IntegerDatatype::NonPositiveInteger(None))),
        integer(Some(IntegerDatatype::NonPositiveInteger(Some(
            NonPositiveIntegerDatatype::NegativeInteger,
        )))),
        integer(Some(IntegerDatatype::Long(None))),
        integer(Some(IntegerDatatype::Long(Some(LongDatatype::Int(None))))),
        integer(Some(IntegerDatatype::Long(Some(LongDatatype::Int(Some(
            IntDatatype::Short(None),
        )))))),
        integer(Some(IntegerDatatype::Long(Some(LongDatatype::Int(Some(
            IntDatatype::Short(Some(ShortDatatype::Byte)),
        )))))),
        integer(Some(IntegerDatatype::NonNegativeInteger(None))),
        integer(Some(IntegerDatatype::NonNegativeInteger(Some(
            NonNegativeIntegerDatatype::UnsignedLong(None),
        )))),
        integer(Some(IntegerDatatype::NonNegativeInteger(Some(
            NonNegativeIntegerDatatype::UnsignedLong(Some(UnsignedLongDatatype::UnsignedInt(
                None,
            ))),
        )))),
        integer(Some(IntegerDatatype::NonNegativeInteger(Some(
            NonNegativeIntegerDatatype::UnsignedLong(Some(UnsignedLongDatatype::UnsignedInt(
                Some(UnsignedIntDatatype::UnsignedShort(None)),
            ))),
        )))),
        integer(Some(IntegerDatatype::NonNegativeInteger(Some(
            NonNegativeIntegerDatatype::UnsignedLong(Some(UnsignedLongDatatype::UnsignedInt(
                Some(UnsignedIntDatatype::UnsignedShort(Some(
                    UnsignedShortDatatype::UnsignedByte,
                ))),
            ))),
        )))),
        integer(Some(IntegerDatatype::NonNegativeInteger(Some(
            NonNegativeIntegerDatatype::PositiveInteger,
        )))),
        Datatype::Float,
        Datatype::Double,
        Datatype::Duration,
        Datatype::DateTime,
        Datatype::Time,
        Datatype::Date,
        Datatype::GYearMonth,
        Datatype::GYear,
        Datatype::GMonthDay,
        Datatype::GDay,
        Datatype::GMonth,
        Datatype::HexBinary,
        Datatype::Base64Binary,
        Datatype::AnyUri,
        Datatype::QName,
        Datatype::Notation,
    ]
}

#[test]
fn byte_iri_names_the_byte_datatype() {
    let d = Datatype::from_iri("http://www.w3.org/2001/XMLSchema#byte");
    let byte = integer(Some(IntegerDatatype::Long(Some(LongDatatype::Int(Some(
        IntDatatype::Short(Some(ShortDatatype::Byte)),
    ))))));
    assert_eq!(d, Some(byte));
    assert_eq!(byte.iri(), "http://www.w3.org/2001/XMLSchema#byte");
    assert_eq!(byte.iri(), XSD_BYTE);
}

#[test]
fn every_datatype_is_found_by_its_iri() {
    let all = all_datatypes();
    assert_eq!(all.len(), 41);
    for d in all.iter() {
        assert_eq!(Datatype::from_iri(d.iri()), Some(*d));
    }
}

#[test]
fn iris_of_distinct_datatypes_differ() {
    let all = all_datatypes();
    for (i, a) in all.iter().enumerate() {
        for (j, b) in all.iter().enumerate() {
            assert_eq!(i == j, a.iri() == b.iri());
        }
    }
}

#[test]
fn unknown_iris_name_no_datatype() {
    assert_eq!(Datatype::from_iri(""), None);
    assert_eq!(Datatype::from_iri("byte"), None);
    assert_eq!(Datatype::from_iri("http://www.w3.org/2001/XMLSchema#Byte"), None);
    assert_eq!(Datatype::from_iri("http://www.w3.org/2001/XMLSchema#byte "), None);
    assert_eq!(Datatype::from_iri("HTTP://www.w3.org/2001/XMLSchema#byte"), None);
    assert_eq!(Datatype::from_iri("http://example.org/byte"), None);
}

#[test]
fn list_datatypes_are_not_in_the_catalogue() {
    assert_eq!(Datatype::from_iri(XSD_NMTOKENS), None);
    assert_eq!(Datatype::from_iri(XSD_IDREFS), None);
    assert_eq!(Datatype::from_iri(XSD_ENTITIES), None);
}

#[test]
fn primitive_datatypes_by_iri() {
    assert_eq!(Datatype::from_iri(XSD_STRING), Some(Datatype::String(None)));
    assert_eq!(Datatype::from_iri(XSD_BOOLEAN), Some(Datatype::Boolean));
    assert_eq!(Datatype::from_iri(XSD_DECIMAL), Some(Datatype::Decimal(None)));
    assert_eq!(Datatype::from_iri(XSD_ANY_URI), Some(Datatype::AnyUri));
    assert_eq!(Datatype::from_iri(XSD_INTEGER), Some(integer(None)));
}

#[test]
fn derived_datatypes_name_their_own_iri() {
    assert_eq!(UnsignedShortDatatype::UnsignedByte.iri(), XSD_UNSIGNED_BYTE);
    assert_eq!(NonNegativeIntegerDatatype::PositiveInteger.iri(), XSD_POSITIVE_INTEGER);
    assert_eq!(
        IntegerDatatype::NonNegativeInteger(None).iri(),
        "http://www.w3.org/2001/XMLSchema#nonNegativeInteger"
    );
    assert_eq!(
        Datatype::from_iri(XSD_POSITIVE_INTEGER),
        Some(integer(Some(IntegerDatatype::NonNegativeInteger(Some(
            NonNegativeIntegerDatatype::PositiveInteger
        )))))
    );
}
