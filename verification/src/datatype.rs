//! The catalogue of XSD datatypes: one closed enum per step of the derivation chains, and
//! the IRI that names each datatype.
use crate::text::str_eq;
use vstd::prelude::*;

verus! {

pub const XSD_DURATION: &'static str = "http://www.w3.org/2001/XMLSchema#duration";

pub const XSD_DATE_TIME: &'static str = "http://www.w3.org/2001/XMLSchema#dateTime";

pub const XSD_TIME: &'static str = "http://www.w3.org/2001/XMLSchema#time";

pub const XSD_DATE: &'static str = "http://www.w3.org/2001/XMLSchema#date";

pub const XSD_G_YEAR_MONTH: &'static str = "http://www.w3.org/2001/XMLSchema#gYearMonth";

pub const XSD_G_YEAR: &'static str = "http://www.w3.org/2001/XMLSchema#gYear";

pub const XSD_G_MONTH_DAY: &'static str = "http://www.w3.org/2001/XMLSchema#gMonthDay";

pub const XSD_G_DAY: &'static str = "http://www.w3.org/2001/XMLSchema#gDay";

pub const XSD_G_MONTH: &'static str = "http://www.w3.org/2001/XMLSchema#gMonth";

pub const XSD_STRING: &'static str = "http://www.w3.org/2001/XMLSchema#string";

pub const XSD_BOOLEAN: &'static str = "http://www.w3.org/2001/XMLSchema#boolean";

pub const XSD_BASE64_BINARY: &'static str = "http://www.w3.org/2001/XMLSchema#base64Binary";

pub const XSD_HEX_BINARY: &'static str = "http://www.w3.org/2001/XMLSchema#hexBinary";

pub const XSD_FLOAT: &'static str = "http://www.w3.org/2001/XMLSchema#float";

pub const XSD_DECIMAL: &'static str = "http://www.w3.org/2001/XMLSchema#decimal";

pub const XSD_DOUBLE: &'static str = "http://www.w3.org/2001/XMLSchema#double";

pub const XSD_ANY_URI: &'static str = "http://www.w3.org/2001/XMLSchema#anyURI";

pub const XSD_Q_NAME: &'static str = "http://www.w3.org/2001/XMLSchema#QName";

pub const XSD_NOTATION: &'static str = "http://www.w3.org/2001/XMLSchema#NOTATION";

pub const XSD_NORMALIZED_STRING: &'static str = "http://www.w3.org/2001/XMLSchema#normalizedString";

pub const XSD_TOKEN: &'static str = "http://www.w3.org/2001/XMLSchema#token";

pub const XSD_LANGUAGE: &'static str = "http://www.w3.org/2001/XMLSchema#language";

pub const XSD_NAME: &'static str = "http://www.w3.org/2001/XMLSchema#Name";

pub const XSD_NMTOKEN: &'static str = "http://www.w3.org/2001/XMLSchema#NMTOKEN";

pub const XSD_NC_NAME: &'static str = "http://www.w3.org/2001/XMLSchema#NCName";

pub const XSD_NMTOKENS: &'static str = "http://www.w3.org/2001/XMLSchema#NMTOKENS";

pub const XSD_ID: &'static str = "http://www.w3.org/2001/XMLSchema#ID";

pub const XSD_IDREF: &'static str = "http://www.w3.org/2001/XMLSchema#IDREF";

pub const XSD_ENTITY: &'static str = "http://www.w3.org/2001/XMLSchema#ENTITY";

pub const XSD_IDREFS: &'static str = "http://www.w3.org/2001/XMLSchema#IDREFS";

pub const XSD_ENTITIES: &'static str = "http://www.w3.org/2001/XMLSchema#ENTITIES";

pub const XSD_INTEGER: &'static str = "http://www.w3.org/2001/XMLSchema#integer";

pub const XSD_NON_POSITIVE_INTEGER: &'static str =
    "http://www.w3.org/2001/XMLSchema#nonPositiveInteger";

pub const XSD_NEGATIVE_INTEGER: &'static str = "http://www.w3.org/2001/XMLSchema#negativeInteger";

pub const XSD_LONG: &'static str = "http://www.w3.org/2001/XMLSchema#long";

pub const XSD_INT: &'static str = "http://www.w3.org/2001/XMLSchema#int";

pub const XSD_SHORT: &'static str = "http://www.w3.org/2001/XMLSchema#short";

pub const XSD_BYTE: &'static str = "http://www.w3.org/2001/XMLSchema#byte";

pub const XSD_NON_NEGATIVE_INTEGER: &'static str =
    "http://www.w3.org/2001/XMLSchema#nonNegativeInteger";

pub const XSD_UNSIGNED_LONG: &'static str = "http://www.w3.org/2001/XMLSchema#unsignedLong";

pub const XSD_UNSIGNED_INT: &'static str = "http://www.w3.org/2001/XMLSchema#unsignedInt";

pub const XSD_UNSIGNED_SHORT: &'static str = "http://www.w3.org/2001/XMLSchema#unsignedShort";

pub const XSD_UNSIGNED_BYTE: &'static str = "http://www.w3.org/2001/XMLSchema#unsignedByte";

pub const XSD_POSITIVE_INTEGER: &'static str = "http://www.w3.org/2001/XMLSchema#positiveInteger";

/// XSD primitive datatype.
#[derive(Clone, Copy, Debug, PartialEq, Eq, Hash)]
pub enum PrimitiveDatatype {
    String,
    Boolean,
    Decimal,
    Float,
    Double,
    Duration,
    DateTime,
    Time,
    Date,
    GYearMonth,
    GYear,
    GMonthDay,
    GDay,
    GMonth,
    HexBinary,
    Base64Binary,
    AnyUri,
    QName,
    Notation,
}

/// XSD datatype.
///
/// A variant with an `Option` names the primitive datatype itself with `None`, and with
/// `Some` a datatype derived from it by restriction.
#[derive(Clone, Copy, Debug, PartialEq, Eq, Hash)]
pub enum Datatype {
    String(Option<StringDatatype>),
    Boolean,
    Decimal(Option<DecimalDatatype>),
    Float,
    Double,
    Duration,
    DateTime,
    Time,
    Date,
    GYearMonth,
    GYear,
    GMonthDay,
    GDay,
    GMonth,
    HexBinary,
    Base64Binary,
    AnyUri,
    QName,
    Notation,
}

/// Datatype derived from `xsd:string`.
#[derive(Clone, Copy, Debug, PartialEq, Eq, Hash)]
pub enum StringDatatype {
    NormalizedString(Option<NormalizedStringDatatype>),
}

/// Datatype derived from `xsd:normalizedString`.
#[derive(Clone, Copy, Debug, PartialEq, Eq, Hash)]
pub enum NormalizedStringDatatype {
    Token(Option<TokenDatatype>),
}

/// Datatype derived from `xsd:token`.
#[derive(Clone, Copy, Debug, PartialEq, Eq, Hash)]
pub enum TokenDatatype {
    Language,
    NMToken,
    Name(Option<NameDatatype>),
}

/// Datatype derived from `xsd:Name`.
#[derive(Clone, Copy, Debug, PartialEq, Eq, Hash)]
pub enum NameDatatype {
    NCName(Option<NCNameDatatype>),
}

/// Datatype derived from `xsd:NCName`.
#[derive(Clone, Copy, Debug, PartialEq, Eq, Hash)]
pub enum NCNameDatatype {
    Id,
    IdRef,
    Entity,
}

/// Datatype derived from `xsd:decimal`.
#[derive(Clone, Copy, Debug, PartialEq, Eq, Hash)]
pub enum DecimalDatatype {
    Integer(Option<IntegerDatatype>),
}

/// Datatype derived from `xsd:integer`.
#[derive(Clone, Copy, Debug, PartialEq, Eq, Hash)]
pub enum IntegerDatatype {
    NonPositiveInteger(Option<NonPositiveIntegerDatatype>),
    Long(Option<LongDatatype>),
    NonNegativeInteger(Option<NonNegativeIntegerDatatype>),
}

/// Datatype derived from `xsd:nonPositiveInteger`.
#[derive(Clone, Copy, Debug, PartialEq, Eq, Hash)]
pub enum NonPositiveIntegerDatatype {
    NegativeInteger,
}

/// Datatype derived from `xsd:long`.
#[derive(Clone, Copy, Debug, PartialEq, Eq, Hash)]
pub enum LongDatatype {
    Int(Option<IntDatatype>),
}

/// Datatype derived from `xsd:int`.
#[derive(Clone, Copy, Debug, PartialEq, Eq, Hash)]
pub enum IntDatatype {
    Short(Option<ShortDatatype>),
}

/// Datatype derived from `xsd:short`.
#[derive(Clone, Copy, Debug, PartialEq, Eq, Hash)]
pub enum ShortDatatype {
    Byte,
}

/// Datatype derived from `xsd:nonNegativeInteger`.
#[derive(Clone, Copy, Debug, PartialEq, Eq, Hash)]
pub enum NonNegativeIntegerDatatype {
    UnsignedLong(Option<UnsignedLongDatatype>),
    PositiveInteger,
}

/// Datatype derived from `xsd:unsignedLong`.
#[derive(Clone, Copy, Debug, PartialEq, Eq, Hash)]
pub enum UnsignedLongDatatype {
    UnsignedInt(Option<UnsignedIntDatatype>),
}

/// Datatype derived from `xsd:unsignedInt`.
#[derive(Clone, Copy, Debug, PartialEq, Eq, Hash)]
pub enum UnsignedIntDatatype {
    UnsignedShort(Option<UnsignedShortDatatype>),
}

/// Datatype derived from `xsd:unsignedShort`.
#[derive(Clone, Copy, Debug, PartialEq, Eq, Hash)]
pub enum UnsignedShortDatatype {
    UnsignedByte,
}

impl NCNameDatatype {
    /// The characters of the IRI that names this datatype.
    pub open spec fn spec_iri(self) -> Seq<char> {
        match self {
            Self::Id => XSD_ID@,
            Self::IdRef => XSD_IDREF@,
            Self::Entity => XSD_ENTITY@,
        }
    }

    /// The IRI that names this datatype.
    pub fn iri(&self) -> (r: &'static str)
        ensures
            r@ == self.spec_iri(),
    {
        match self {
            Self::Id => XSD_ID,
            Self::IdRef => XSD_IDREF,
            Self::Entity => XSD_ENTITY,
        }
    }
}

impl NameDatatype {
    /// The characters of the IRI that names this datatype.
    pub open spec fn spec_iri(self) -> Seq<char> {
        match self {
            Self::NCName(None) => XSD_NC_NAME@,
            Self::NCName(Some(t)) => t.spec_iri(),
        }
    }

    /// The IRI that names this datatype.
    pub fn iri(&self) -> (r: &'static str)
        ensures
            r@ == self.spec_iri(),
    {
        match self {
            Self::NCName(None) => XSD_NC_NAME,
            Self::NCName(Some(t)) => t.iri(),
        }
    }
}

impl TokenDatatype {
    /// The characters of the IRI that names this datatype.
    pub open spec fn spec_iri(self) -> Seq<char> {
        match self {
            Self::Language => XSD_LANGUAGE@,
            Self::NMToken => XSD_NMTOKEN@,
            Self::Name(None) => XSD_NAME@,
            Self::Name(Some(t)) => t.spec_iri(),
        }
    }

    /// The IRI that names this datatype.
    pub fn iri(&self) -> (r: &'static str)
        ensures
            r@ == self.spec_iri(),
    {
        match self {
            Self::Language => XSD_LANGUAGE,
            Self::NMToken => XSD_NMTOKEN,
            Self::Name(None) => XSD_NAME,
            Self::Name(Some(t)) => t.iri(),
        }
    }
}

impl NormalizedStringDatatype {
    /// The characters of the IRI that names this datatype.
    pub open spec fn spec_iri(self) -> Seq<char> {
        match self {
            Self::Token(None) => XSD_TOKEN@,
            Self::Token(Some(t)) => t.spec_iri(),
        }
    }

    /// The IRI that names this datatype.
    pub fn iri(&self) -> (r: &'static str)
        ensures
            r@ == self.spec_iri(),
    {
        match self {
            Self::Token(None) => XSD_TOKEN,
            Self::Token(Some(t)) => t.iri(),
        }
    }
}

impl StringDatatype {
    /// The characters of the IRI that names this datatype.
    pub open spec fn spec_iri(self) -> Seq<char> {
        match self {
            Self::NormalizedString(None) => XSD_NORMALIZED_STRING@,
            Self::NormalizedString(Some(t)) => t.spec_iri(),
        }
    }

    /// The IRI that names this datatype.
    pub fn iri(&self) -> (r: &'static str)
        ensures
            r@ == self.spec_iri(),
    {
        match self {
            Self::NormalizedString(None) => XSD_NORMALIZED_STRING,
            Self::NormalizedString(Some(t)) => t.iri(),
        }
    }
}

impl UnsignedShortDatatype {
    /// The characters of the IRI that names this datatype.
    pub open spec fn spec_iri(self) -> Seq<char> {
        match self {
            Self::UnsignedByte => XSD_UNSIGNED_BYTE@,
        }
    }

    /// The IRI that names this datatype.
    pub fn iri(&self) -> (r: &'static str)
        ensures
            r@ == self.spec_iri(),
    {
        match self {
            Self::UnsignedByte => XSD_UNSIGNED_BYTE,
        }
    }
}

impl UnsignedIntDatatype {
    /// The characters of the IRI that names this datatype.
    pub open spec fn spec_iri(self) -> Seq<char> {
        match self {
            Self::UnsignedShort(None) => XSD_UNSIGNED_SHORT@,
            Self::UnsignedShort(Some(t)) => t.spec_iri(),
        }
    }

    /// The IRI that names this datatype.
    pub fn iri(&self) -> (r: &'static str)
        ensures
            r@ == self.spec_iri(),
    {
        match self {
            Self::UnsignedShort(None) => XSD_UNSIGNED_SHORT,
            Self::UnsignedShort(Some(t)) => t.iri(),
        }
    }
}

impl UnsignedLongDatatype {
    /// The characters of the IRI that names this datatype.
    pub open spec fn spec_iri(self) -> Seq<char> {
        match self {
            Self::UnsignedInt(None) => XSD_UNSIGNED_INT@,
            Self::UnsignedInt(Some(t)) => t.spec_iri(),
        }
    }

    /// The IRI that names this datatype.
    pub fn iri(&self) -> (r: &'static str)
        ensures
            r@ == self.spec_iri(),
    {
        match self {
            Self::UnsignedInt(None) => XSD_UNSIGNED_INT,
            Self::UnsignedInt(Some(t)) => t.iri(),
        }
    }
}

impl NonNegativeIntegerDatatype {
    /// The characters of the IRI that names this datatype.
    pub open spec fn spec_iri(self) -> Seq<char> {
        match self {
            Self::UnsignedLong(None) => XSD_UNSIGNED_LONG@,
            Self::UnsignedLong(Some(t)) => t.spec_iri(),
            Self::PositiveInteger => XSD_POSITIVE_INTEGER@,
        }
    }

    /// The IRI that names this datatype.
    pub fn iri(&self) -> (r: &'static str)
        ensures
            r@ == self.spec_iri(),
    {
        match self {
            Self::UnsignedLong(None) => XSD_UNSIGNED_LONG,
            Self::UnsignedLong(Some(t)) => t.iri(),
            Self::PositiveInteger => XSD_POSITIVE_INTEGER,
        }
    }
}

impl ShortDatatype {
    /// The characters of the IRI that names this datatype.
    pub open spec fn spec_iri(self) -> Seq<char> {
        match self {
            Self::Byte => XSD_BYTE@,
        }
    }

    /// The IRI that names this datatype.
    pub fn iri(&self) -> (r: &'static str)
        ensures
            r@ == self.spec_iri(),
    {
        match self {
            Self::Byte => XSD_BYTE,
        }
    }
}

impl IntDatatype {
    /// The characters of the IRI that names this datatype.
    pub open spec fn spec_iri(self) -> Seq<char> {
        match self {
            Self::Short(None) => XSD_SHORT@,
            Self::Short(Some(t)) => t.spec_iri(),
        }
    }

    /// The IRI that names this datatype.
    pub fn iri(&self) -> (r: &'static str)
        ensures
            r@ == self.spec_iri(),
    {
        match self {
            Self::Short(None) => XSD_SHORT,
            Self::Short(Some(t)) => t.iri(),
        }
    }
}

impl LongDatatype {
    /// The characters of the IRI that names this datatype.
    pub open spec fn spec_iri(self) -> Seq<char> {
        match self {
            Self::Int(None) => XSD_INT@,
            Self::Int(Some(t)) => t.spec_iri(),
        }
    }

    /// The IRI that names this datatype.
    pub fn iri(&self) -> (r: &'static str)
        ensures
            r@ == self.spec_iri(),
    {
        match self {
            Self::Int(None) => XSD_INT,
            Self::Int(Some(t)) => t.iri(),
        }
    }
}

impl NonPositiveIntegerDatatype {
    /// The characters of the IRI that names this datatype.
    pub open spec fn spec_iri(self) -> Seq<char> {
        match self {
            Self::NegativeInteger => XSD_NEGATIVE_INTEGER@,
        }
    }

    /// The IRI that names this datatype.
    pub fn iri(&self) -> (r: &'static str)
        ensures
            r@ == self.spec_iri(),
    {
        match self {
            Self::NegativeInteger => XSD_NEGATIVE_INTEGER,
        }
    }
}

impl IntegerDatatype {
    /// The characters of the IRI that names this datatype.
    pub open spec fn spec_iri(self) -> Seq<char> {
        match self {
            Self::NonPositiveInteger(None) => XSD_NON_POSITIVE_INTEGER@,
            Self::NonPositiveInteger(Some(t)) => t.spec_iri(),
            Self::Long(None) => XSD_LONG@,
            Self::Long(Some(t)) => t.spec_iri(),
            Self::NonNegativeInteger(None) => XSD_NON_NEGATIVE_INTEGER@,
            Self::NonNegativeInteger(Some(t)) => t.spec_iri(),
        }
    }

    /// The IRI that names this datatype.
    pub fn iri(&self) -> (r: &'static str)
        ensures
            r@ == self.spec_iri(),
    {
        match self {
            Self::NonPositiveInteger(None) => XSD_NON_POSITIVE_INTEGER,
            Self::NonPositiveInteger(Some(t)) => t.iri(),
            Self::Long(None) => XSD_LONG,
            Self::Long(Some(t)) => t.iri(),
            Self::NonNegativeInteger(None) => XSD_NON_NEGATIVE_INTEGER,
            Self::NonNegativeInteger(Some(t)) => t.iri(),
        }
    }
}

impl DecimalDatatype {
    /// The characters of the IRI that names this datatype.
    pub open spec fn spec_iri(self) -> Seq<char> {
        match self {
            Self::Integer(None) => XSD_INTEGER@,
            Self::Integer(Some(t)) => t.spec_iri(),
        }
    }

    /// The IRI that names this datatype.
    pub fn iri(&self) -> (r: &'static str)
        ensures
            r@ == self.spec_iri(),
    {
        match self {
            Self::Integer(None) => XSD_INTEGER,
            Self::Integer(Some(t)) => t.iri(),
        }
    }
}

impl Datatype {
    /// The characters of the IRI that names this datatype.
    pub open spec fn spec_iri(self) -> Seq<char> {
        match self {
            Self::String(None) => XSD_STRING@,
            Self::String(Some(t)) => t.spec_iri(),
            Self::Boolean => XSD_BOOLEAN@,
            Self::Decimal(None) => XSD_DECIMAL@,
            Self::Decimal(Some(t)) => t.spec_iri(),
            Self::Float => XSD_FLOAT@,
            Self::Double => XSD_DOUBLE@,
            Self::Duration => XSD_DURATION@,
            Self::DateTime => XSD_DATE_TIME@,
            Self::Time => XSD_TIME@,
            Self::Date => XSD_DATE@,
            Self::GYearMonth => XSD_G_YEAR_MONTH@,
            Self::GYear => XSD_G_YEAR@,
            Self::GMonthDay => XSD_G_MONTH_DAY@,
            Self::GDay => XSD_G_DAY@,
            Self::GMonth => XSD_G_MONTH@,
            Self::HexBinary => XSD_HEX_BINARY@,
            Self::Base64Binary => XSD_BASE64_BINARY@,
            Self::AnyUri => XSD_ANY_URI@,
            Self::QName => XSD_Q_NAME@,
            Self::Notation => XSD_NOTATION@,
        }
    }

    /// The IRI that names this datatype.
    pub fn iri(&self) -> (r: &'static str)
        ensures
            r@ == self.spec_iri(),
    {
        match self {
            Self::String(None) => XSD_STRING,
            Self::String(Some(t)) => t.iri(),
            Self::Boolean => XSD_BOOLEAN,
            Self::Decimal(None) => XSD_DECIMAL,
            Self::Decimal(Some(t)) => t.iri(),
            Self::Float => XSD_FLOAT,
            Self::Double => XSD_DOUBLE,
            Self::Duration => XSD_DURATION,
            Self::DateTime => XSD_DATE_TIME,
            Self::Time => XSD_TIME,
            Self::Date => XSD_DATE,
            Self::GYearMonth => XSD_G_YEAR_MONTH,
            Self::GYear => XSD_G_YEAR,
            Self::GMonthDay => XSD_G_MONTH_DAY,
            Self::GDay => XSD_G_DAY,
            Self::GMonth => XSD_G_MONTH,
            Self::HexBinary => XSD_HEX_BINARY,
            Self::Base64Binary => XSD_BASE64_BINARY,
            Self::AnyUri => XSD_ANY_URI,
            Self::QName => XSD_Q_NAME,
            Self::Notation => XSD_NOTATION,
        }
    }
}

/// True when `s` is the IRI of one of the datatypes of the catalogue.
pub open spec fn is_datatype_iri(s: Seq<char>) -> bool {
    exists|d: Datatype| #[trigger] d.spec_iri() == s
}

/// The datatype of the catalogue that the IRI `s` names, if there is one.
pub open spec fn datatype_of_iri(s: Seq<char>) -> Option<Datatype> {
    if is_datatype_iri(s) {
        Some(choose|d: Datatype| #[trigger] d.spec_iri() == s)
    } else {
        None
    }
}

/// Every datatype is named by one of the IRIs listed here.
proof fn lemma_iri_listed(d: Datatype)
    ensures
        d.spec_iri() == XSD_DURATION@
            || d.spec_iri() == XSD_DATE_TIME@
            || d.spec_iri() == XSD_TIME@
            || d.spec_iri() == XSD_DATE@
            || d.spec_iri() == XSD_G_YEAR_MONTH@
            || d.spec_iri() == XSD_G_YEAR@
            || d.spec_iri() == XSD_G_MONTH_DAY@
            || d.spec_iri() == XSD_G_DAY@
            || d.spec_iri() == XSD_G_MONTH@
            || d.spec_iri() == XSD_STRING@
            || d.spec_iri() == XSD_BOOLEAN@
            || d.spec_iri() == XSD_BASE64_BINARY@
            || d.spec_iri() == XSD_HEX_BINARY@
            || d.spec_iri() == XSD_FLOAT@
            || d.spec_iri() == XSD_DECIMAL@
            || d.spec_iri() == XSD_DOUBLE@
            || d.spec_iri() == XSD_ANY_URI@
            || d.spec_iri() == XSD_Q_NAME@
            || d.spec_iri() == XSD_NOTATION@
            || d.spec_iri() == XSD_NORMALIZED_STRING@
            || d.spec_iri() == XSD_TOKEN@
            || d.spec_iri() == XSD_LANGUAGE@
            || d.spec_iri() == XSD_NAME@
            || d.spec_iri() == XSD_NMTOKEN@
            || d.spec_iri() == XSD_NC_NAME@
            || d.spec_iri() == XSD_ID@
            || d.spec_iri() == XSD_IDREF@
            || d.spec_iri() == XSD_ENTITY@
            || d.spec_iri() == XSD_INTEGER@
            || d.spec_iri() == XSD_NON_POSITIVE_INTEGER@
            || d.spec_iri() == XSD_NEGATIVE_INTEGER@
            || d.spec_iri() == XSD_LONG@
            || d.spec_iri() == XSD_INT@
            || d.spec_iri() == XSD_SHORT@
            || d.spec_iri() == XSD_BYTE@
            || d.spec_iri() == XSD_NON_NEGATIVE_INTEGER@
            || d.spec_iri() == XSD_UNSIGNED_LONG@
            || d.spec_iri() == XSD_UNSIGNED_INT@
            || d.spec_iri() == XSD_UNSIGNED_SHORT@
            || d.spec_iri() == XSD_UNSIGNED_BYTE@
            || d.spec_iri() == XSD_POSITIVE_INTEGER@,
{
}

/// A few characters of an IRI and its length: enough to tell the IRIs of the catalogue apart.
spec fn iri_mark(s: Seq<char>) -> (nat, char, char, char) {
    (s.len(), s[33], if s.len() > 36 { s[36] } else { ' ' }, if s.len() > 41 { s[41] } else { ' ' })
}

/// The marks of the IRIs of the catalogue, which differ from one another.
proof fn lemma_iri_marks()
    ensures
        iri_mark(XSD_DURATION@) == (41nat, 'd', 'a', ' '),
        iri_mark(XSD_DATE_TIME@) == (41nat, 'd', 'e', ' '),
        iri_mark(XSD_TIME@) == (37nat, 't', 'e', ' '),
        iri_mark(XSD_DATE@) == (37nat, 'd', 'e', ' '),
        iri_mark(XSD_G_YEAR_MONTH@) == (43nat, 'g', 'a', 't'),
        iri_mark(XSD_G_YEAR@) == (38nat, 'g', 'a', ' '),
        iri_mark(XSD_G_MONTH_DAY@) == (42nat, 'g', 'n', 'y'),
        iri_mark(XSD_G_DAY@) == (37nat, 'g', 'y', ' '),
        iri_mark(XSD_G_MONTH@) == (39nat, 'g', 'n', ' '),
        iri_mark(XSD_STRING@) == (39nat, 's', 'i', ' '),
        iri_mark(XSD_BOOLEAN@) == (40nat, 'b', 'l', ' '),
        iri_mark(XSD_BASE64_BINARY@) == (45nat, 'b', 'e', 'n'),
        iri_mark(XSD_HEX_BINARY@) == (42nat, 'h', 'B', 'y'),
        iri_mark(XSD_FLOAT@) == (38nat, 'f', 'a', ' '),
        iri_mark(XSD_DECIMAL@) == (40nat, 'd', 'i', ' '),
        iri_mark(XSD_DOUBLE@) == (39nat, 'd', 'b', ' '),
        iri_mark(XSD_ANY_URI@) == (39nat, 'a', 'U', ' '),
        iri_mark(XSD_Q_NAME@) == (38nat, 'Q', 'm', ' '),
        iri_mark(XSD_NOTATION@) == (41nat, 'N', 'A', ' '),
        iri_mark(XSD_NORMALIZED_STRING@) == (49nat, 'n', 'm', 'e'),
        iri_mark(XSD_TOKEN@) == (38nat, 't', 'e', ' '),
        iri_mark(XSD_LANGUAGE@) == (41nat, 'l', 'g', ' '),
        iri_mark(XSD_NAME@) == (37nat, 'N', 'e', ' '),
        iri_mark(XSD_NMTOKEN@) == (40nat, 'N', 'O', ' '),
        iri_mark(XSD_NC_NAME@) == (39nat, 'N', 'a', ' '),
        iri_mark(XSD_ID@) == (35nat, 'I', ' ', ' '),
        iri_mark(XSD_IDREF@) == (38nat, 'I', 'E', ' '),
        iri_mark(XSD_ENTITY@) == (39nat, 'E', 'I', ' '),
        iri_mark(XSD_INTEGER@) == (40nat, 'i', 'e', ' '),
        iri_mark(XSD_NON_POSITIVE_INTEGER@) == (51nat, 'n', 'P', 'i'),
        iri_mark(XSD_NEGATIVE_INTEGER@) == (48nat, 'n', 'a', 'I'),
        iri_mark(XSD_LONG@) == (37nat, 'l', 'g', ' '),
        iri_mark(XSD_INT@) == (36nat, 'i', ' ', ' '),
        iri_mark(XSD_SHORT@) == (38nat, 's', 'r', ' '),
        iri_mark(XSD_BYTE@) == (37nat, 'b', 'e', ' '),
        iri_mark(XSD_NON_NEGATIVE_INTEGER@) == (51nat, 'n', 'N', 'i'),
        iri_mark(XSD_UNSIGNED_LONG@) == (45nat, 'u', 'i', 'L'),
        iri_mark(XSD_UNSIGNED_INT@) == (44nat, 'u', 'i', 'I'),
        iri_mark(XSD_UNSIGNED_SHORT@) == (46nat, 'u', 'i', 'S'),
        iri_mark(XSD_UNSIGNED_BYTE@) == (45nat, 'u', 'i', 'B'),
        iri_mark(XSD_POSITIVE_INTEGER@) == (48nat, 'p', 'i', 'I'),
{
    reveal_strlit("http://www.w3.org/2001/XMLSchema#duration");
    reveal_strlit("http://www.w3.org/2001/XMLSchema#dateTime");
    reveal_strlit("http://www.w3.org/2001/XMLSchema#time");
    reveal_strlit("http://www.w3.org/2001/XMLSchema#date");
    reveal_strlit("http://www.w3.org/2001/XMLSchema#gYearMonth");
    reveal_strlit("http://www.w3.org/2001/XMLSchema#gYear");
    reveal_strlit("http://www.w3.org/2001/XMLSchema#gMonthDay");
    reveal_strlit("http://www.w3.org/2001/XMLSchema#gDay");
    reveal_strlit("http://www.w3.org/2001/XMLSchema#gMonth");
    reveal_strlit("http://www.w3.org/2001/XMLSchema#string");
    reveal_strlit("http://www.w3.org/2001/XMLSchema#boolean");
    reveal_strlit("http://www.w3.org/2001/XMLSchema#base64Binary");
    reveal_strlit("http://www.w3.org/2001/XMLSchema#hexBinary");
    reveal_strlit("http://www.w3.org/2001/XMLSchema#float");
    reveal_strlit("http://www.w3.org/2001/XMLSchema#decimal");
    reveal_strlit("http://www.w3.org/2001/XMLSchema#double");
    reveal_strlit("http://www.w3.org/2001/XMLSchema#anyURI");
    reveal_strlit("http://www.w3.org/2001/XMLSchema#QName");
    reveal_strlit("http://www.w3.org/2001/XMLSchema#NOTATION");
    reveal_strlit("http://www.w3.org/2001/XMLSchema#normalizedString");
    reveal_strlit("http://www.w3.org/2001/XMLSchema#token");
    reveal_strlit("http://www.w3.org/2001/XMLSchema#language");
    reveal_strlit("http://www.w3.org/2001/XMLSchema#Name");
    reveal_strlit("http://www.w3.org/2001/XMLSchema#NMTOKEN");
    reveal_strlit("http://www.w3.org/2001/XMLSchema#NCName");
    reveal_strlit("http://www.w3.org/2001/XMLSchema#ID");
    reveal_strlit("http://www.w3.org/2001/XMLSchema#IDREF");
    reveal_strlit("http://www.w3.org/2001/XMLSchema#ENTITY");
    reveal_strlit("http://www.w3.org/2001/XMLSchema#integer");
    reveal_strlit("http://www.w3.org/2001/XMLSchema#nonPositiveInteger");
    reveal_strlit("http://www.w3.org/2001/XMLSchema#negativeInteger");
    reveal_strlit("http://www.w3.org/2001/XMLSchema#long");
    reveal_strlit("http://www.w3.org/2001/XMLSchema#int");
    reveal_strlit("http://www.w3.org/2001/XMLSchema#short");
    reveal_strlit("http://www.w3.org/2001/XMLSchema#byte");
    reveal_strlit("http://www.w3.org/2001/XMLSchema#nonNegativeInteger");
    reveal_strlit("http://www.w3.org/2001/XMLSchema#unsignedLong");
    reveal_strlit("http://www.w3.org/2001/XMLSchema#unsignedInt");
    reveal_strlit("http://www.w3.org/2001/XMLSchema#unsignedShort");
    reveal_strlit("http://www.w3.org/2001/XMLSchema#unsignedByte");
    reveal_strlit("http://www.w3.org/2001/XMLSchema#positiveInteger");
}

/// Two datatypes with the same IRI are the same datatype.
pub proof fn lemma_iri_injective(a: Datatype, b: Datatype)
    requires
        a.spec_iri() == b.spec_iri(),
    ensures
        a == b,
{
    lemma_iri_marks();
    lemma_iri_listed(a);
    lemma_iri_listed(b);
}

impl Datatype {
    /// The datatype that `iri` names, if it names one of the catalogue.
    ///
    /// The comparison is exact, character by character. The IRIs of the datatypes derived
    /// by list (`NMTOKENS`, `IDREFS`, `ENTITIES`) name no datatype of the catalogue.
    pub fn from_iri(iri: &str) -> (r: Option<Datatype>)
        ensures
            r == datatype_of_iri(iri@),
            forall|d: Datatype| r == Some(d) <==> #[trigger] d.spec_iri() == iri@,
    {
        let r = if str_eq(iri, XSD_DURATION) {
            Some(Datatype::Duration)
        } else if str_eq(iri, XSD_DATE_TIME) {
            Some(Datatype::DateTime)
        } else if str_eq(iri, XSD_TIME) {
            Some(Datatype::Time)
        } else if str_eq(iri, XSD_DATE) {
            Some(Datatype::Date)
        } else if str_eq(iri, XSD_G_YEAR_MONTH) {
            Some(Datatype::GYearMonth)
        } else if str_eq(iri, XSD_G_YEAR) {
            Some(Datatype::GYear)
        } else if str_eq(iri, XSD_G_MONTH_DAY) {
            Some(Datatype::GMonthDay)
        } else if str_eq(iri, XSD_G_DAY) {
            Some(Datatype::GDay)
        } else if str_eq(iri, XSD_G_MONTH) {
            Some(Datatype::GMonth)
        } else if str_eq(iri, XSD_STRING) {
            Some(Datatype::String(None))
        } else if str_eq(iri, XSD_BOOLEAN) {
            Some(Datatype::Boolean)
        } else if str_eq(iri, XSD_BASE64_BINARY) {
            Some(Datatype::Base64Binary)
        } else if str_eq(iri, XSD_HEX_BINARY) {
            Some(Datatype::HexBinary)
        } else if str_eq(iri, XSD_FLOAT) {
            Some(Datatype::Float)
        } else if str_eq(iri, XSD_DECIMAL) {
            Some(Datatype::Decimal(None))
        } else if str_eq(iri, XSD_DOUBLE) {
            Some(Datatype::Double)
        } else if str_eq(iri, XSD_ANY_URI) {
            Some(Datatype::AnyUri)
        } else if str_eq(iri, XSD_Q_NAME) {
            Some(Datatype::QName)
        } else if str_eq(iri, XSD_NOTATION) {
            Some(Datatype::Notation)
        } else if str_eq(iri, XSD_NORMALIZED_STRING) {
            Some(Datatype::from(StringDatatype::NormalizedString(None)))
        } else if str_eq(iri, XSD_TOKEN) {
            Some(Datatype::from(NormalizedStringDatatype::Token(None)))
        } else if str_eq(iri, XSD_LANGUAGE) {
            Some(Datatype::from(TokenDatatype::Language))
        } else if str_eq(iri, XSD_NAME) {
            Some(Datatype::from(TokenDatatype::Name(None)))
        } else if str_eq(iri, XSD_NMTOKEN) {
            Some(Datatype::from(TokenDatatype::NMToken))
        } else if str_eq(iri, XSD_NC_NAME) {
            Some(Datatype::from(NameDatatype::NCName(None)))
        } else if str_eq(iri, XSD_ID) {
            Some(Datatype::from(NCNameDatatype::Id))
        } else if str_eq(iri, XSD_IDREF) {
            Some(Datatype::from(NCNameDatatype::IdRef))
        } else if str_eq(iri, XSD_ENTITY) {
            Some(Datatype::from(NCNameDatatype::Entity))
        } else if str_eq(iri, XSD_INTEGER) {
            Some(Datatype::from(DecimalDatatype::Integer(None)))
        } else if str_eq(iri, XSD_NON_POSITIVE_INTEGER) {
            Some(Datatype::from(IntegerDatatype::NonPositiveInteger(None)))
        } else if str_eq(iri, XSD_NEGATIVE_INTEGER) {
            Some(Datatype::from(NonPositiveIntegerDatatype::NegativeInteger))
        } else if str_eq(iri, XSD_LONG) {
            Some(Datatype::from(IntegerDatatype::Long(None)))
        } else if str_eq(iri, XSD_INT) {
            Some(Datatype::from(LongDatatype::Int(None)))
        } else if str_eq(iri, XSD_SHORT) {
            Some(Datatype::from(IntDatatype::Short(None)))
        } else if str_eq(iri, XSD_BYTE) {
            Some(Datatype::from(ShortDatatype::Byte))
        } else if str_eq(iri, XSD_NON_NEGATIVE_INTEGER) {
            Some(Datatype::from(IntegerDatatype::NonNegativeInteger(None)))
        } else if str_eq(iri, XSD_UNSIGNED_LONG) {
            Some(Datatype::from(NonNegativeIntegerDatatype::UnsignedLong(None)))
        } else if str_eq(iri, XSD_UNSIGNED_INT) {
            Some(Datatype::from(UnsignedLongDatatype::UnsignedInt(None)))
        } else if str_eq(iri, XSD_UNSIGNED_SHORT) {
            Some(Datatype::from(UnsignedIntDatatype::UnsignedShort(None)))
        } else if str_eq(iri, XSD_UNSIGNED_BYTE) {
            Some(Datatype::from(UnsignedShortDatatype::UnsignedByte))
        } else if str_eq(iri, XSD_POSITIVE_INTEGER) {
            Some(Datatype::from(NonNegativeIntegerDatatype::PositiveInteger))
        } else {
            None
        };
        proof {
            assert forall|d: Datatype| r == Some(d) <==> #[trigger] d.spec_iri() == iri@ by {
                lemma_iri_listed(d);
                if let Some(found) = r {
                    if d.spec_iri() == iri@ {
                        lemma_iri_injective(found, d);
                    }
                }
            }
            if let Some(found) = r {
                assert(found.spec_iri() == iri@);
                lemma_iri_injective(found, datatype_of_iri(iri@).unwrap());
            }
        }
        r
    }
}

/// Looking up the IRI of a datatype gives that datatype back: `from_iri(d.iri())` is
/// `Some(d)` for every datatype `d`.
pub proof fn lemma_iri_round_trip(d: Datatype)
    ensures
        datatype_of_iri(d.spec_iri()) == Some(d),
{
    assert(d.spec_iri() == d.spec_iri());
    lemma_iri_injective(d, datatype_of_iri(d.spec_iri()).unwrap());
}

} // verus!
