//! Parsing: from the text of a literal to the value it denotes.
use crate::datatype::{
    Datatype, DecimalDatatype, IntDatatype, IntegerDatatype, LongDatatype,
    NonNegativeIntegerDatatype, NonPositiveIntegerDatatype, ShortDatatype, UnsignedIntDatatype,
    UnsignedLongDatatype, UnsignedShortDatatype,
};
use crate::lexical::LexicalError;
use crate::lexical::base64_binary::lemma_canonical_base64_binary;
use crate::lexical::boolean::lemma_canonical_boolean;
use crate::lexical::decimal::lemma_canonical_decimal;
use crate::lexical::float::{DoubleBuf, FloatBuf};
use crate::lexical::hex_binary::lemma_canonical_hex_binary;
use crate::lexical::integer::{integer_value, is_integer, lemma_canonical_integer};
use crate::value::{
    AnyUriBuf, Base64BinaryBuf, Decimal, HexBinaryBuf, Integer, NegativeInteger, NonNegativeInteger,
    NonPositiveInteger, PositiveInteger, Value, ValueKind,
};
use crate::value::integer::{int_rung, integer_rung, long_rung, short_rung, Byte, Int, Long, Short};
use crate::value::non_negative_integer::{
    non_negative_integer_rung, unsigned_int_rung, unsigned_long_rung, unsigned_short_rung,
    UnsignedByte, UnsignedInt, UnsignedLong, UnsignedShort,
};
use crate::value::non_positive_integer::non_positive_integer_rung;
use vstd::prelude::*;

verus! {

/// Why a text denotes no value of a type: it is no literal of the type, or it is one and
/// what it denotes lies outside the type's value space.
#[derive(Debug, PartialEq, Eq, Hash)]
pub enum ParseRdfError<L, V> {
    InvalidLexicalForm(L),
    InvalidValue(V),
}

/// Parse a value directly from its RDF lexical form.
pub trait ParseRdf: Sized {
    /// The lexical space of the type.
    spec fn is_literal(s: Seq<char>) -> bool;

    /// Whether what the literal `s` denotes lies in the value space of the type.
    spec fn in_value_space(s: Seq<char>) -> bool;

    /// Whether `v` is what the literal `s` denotes.
    spec fn denotes(s: Seq<char>, v: Self) -> bool;

    /// Whether `e` is what the validator of the type answers on `s`, which is no literal.
    spec fn lexical_error(s: Seq<char>, e: LexicalError) -> bool;

    /// The value that `lexical_value` denotes.
    ///
    /// An `InvalidValue` holds the integer that the literal denotes.
    fn parse_rdf(lexical_value: &str) -> (r: Result<Self, ParseRdfError<LexicalError, Integer>>)
        ensures
            r is Ok <==> Self::is_literal(lexical_value@) && Self::in_value_space(
                lexical_value@,
            ),
            r matches Ok(v) ==> Self::denotes(lexical_value@, v),
            r matches Err(ParseRdfError::InvalidLexicalForm(e)) ==> !Self::is_literal(
                lexical_value@,
            ) && Self::lexical_error(lexical_value@, e),
            r matches Err(ParseRdfError::InvalidValue(i)) ==> Self::is_literal(lexical_value@)
                && !Self::in_value_space(lexical_value@) && i@ == integer_value(lexical_value@),
    ;
}

impl ParseRdf for String {
    open spec fn is_literal(s: Seq<char>) -> bool {
        true
    }

    open spec fn in_value_space(s: Seq<char>) -> bool {
        true
    }

    open spec fn denotes(s: Seq<char>, v: Self) -> bool {
        v@ == s
    }

    open spec fn lexical_error(s: Seq<char>, e: LexicalError) -> bool {
        false
    }

    fn parse_rdf(lexical_value: &str) -> (r: Result<Self, ParseRdfError<LexicalError, Integer>>) {
        Ok(lexical_value.to_owned())
    }
}

/// Why a text could not be parsed as a value of a datatype.
#[derive(Debug, PartialEq, Eq, Hash)]
pub enum ParseError {
    /// The text is no literal of the datatype.
    InvalidLexicalForm(LexicalError),
    /// The text is a literal, and the integer it denotes, held here, lies outside the
    /// value space of the datatype.
    InvalidValue(Integer),
    /// This library does not parse the literals of the datatype.
    Unsupported,
}

/// The error of a datatype's parser for the error of a type's parser.
fn parse_error(e: ParseRdfError<LexicalError, Integer>) -> (r: ParseError)
    ensures
        r == (match e {
            ParseRdfError::InvalidLexicalForm(l) => ParseError::InvalidLexicalForm(l),
            ParseRdfError::InvalidValue(v) => ParseError::InvalidValue(v),
        }),
{
    match e {
        ParseRdfError::InvalidLexicalForm(l) => ParseError::InvalidLexicalForm(l),
        ParseRdfError::InvalidValue(v) => ParseError::InvalidValue(v),
    }
}

impl ValueKind {
    /// The lexical space of the datatype of these values.
    pub open spec fn is_literal(self, s: Seq<char>) -> bool {
        match self {
            ValueKind::String => String::is_literal(s),
            ValueKind::Boolean => bool::is_literal(s),
            ValueKind::Decimal => Decimal::is_literal(s),
            ValueKind::Integer => Integer::is_literal(s),
            ValueKind::NonPositiveInteger => NonPositiveInteger::is_literal(s),
            ValueKind::NegativeInteger => NegativeInteger::is_literal(s),
            ValueKind::Long => Long::is_literal(s),
            ValueKind::Int => Int::is_literal(s),
            ValueKind::Short => Short::is_literal(s),
            ValueKind::Byte => Byte::is_literal(s),
            ValueKind::NonNegativeInteger => NonNegativeInteger::is_literal(s),
            ValueKind::UnsignedLong => UnsignedLong::is_literal(s),
            ValueKind::UnsignedInt => UnsignedInt::is_literal(s),
            ValueKind::UnsignedShort => UnsignedShort::is_literal(s),
            ValueKind::UnsignedByte => UnsignedByte::is_literal(s),
            ValueKind::PositiveInteger => PositiveInteger::is_literal(s),
            ValueKind::Float => FloatBuf::is_literal(s),
            ValueKind::Double => DoubleBuf::is_literal(s),
            ValueKind::HexBinary => HexBinaryBuf::is_literal(s),
            ValueKind::Base64Binary => Base64BinaryBuf::is_literal(s),
            ValueKind::AnyUri => AnyUriBuf::is_literal(s),
        }
    }

    /// Whether what the literal `s` denotes lies in the value space of the datatype of
    /// these values.
    pub open spec fn in_value_space(self, s: Seq<char>) -> bool {
        match self {
            ValueKind::String => String::in_value_space(s),
            ValueKind::Boolean => bool::in_value_space(s),
            ValueKind::Decimal => Decimal::in_value_space(s),
            ValueKind::Integer => Integer::in_value_space(s),
            ValueKind::NonPositiveInteger => NonPositiveInteger::in_value_space(s),
            ValueKind::NegativeInteger => NegativeInteger::in_value_space(s),
            ValueKind::Long => Long::in_value_space(s),
            ValueKind::Int => Int::in_value_space(s),
            ValueKind::Short => Short::in_value_space(s),
            ValueKind::Byte => Byte::in_value_space(s),
            ValueKind::NonNegativeInteger => NonNegativeInteger::in_value_space(s),
            ValueKind::UnsignedLong => UnsignedLong::in_value_space(s),
            ValueKind::UnsignedInt => UnsignedInt::in_value_space(s),
            ValueKind::UnsignedShort => UnsignedShort::in_value_space(s),
            ValueKind::UnsignedByte => UnsignedByte::in_value_space(s),
            ValueKind::PositiveInteger => PositiveInteger::in_value_space(s),
            ValueKind::Float => FloatBuf::in_value_space(s),
            ValueKind::Double => DoubleBuf::in_value_space(s),
            ValueKind::HexBinary => HexBinaryBuf::in_value_space(s),
            ValueKind::Base64Binary => Base64BinaryBuf::in_value_space(s),
            ValueKind::AnyUri => AnyUriBuf::in_value_space(s),
        }
    }

    /// Whether `v` is the value of this kind that the literal `s` denotes.
    pub open spec fn denotes(self, s: Seq<char>, v: Value) -> bool {
        match self {
            ValueKind::String => v matches Value::String(x) && String::denotes(s, x),
            ValueKind::Boolean => v matches Value::Boolean(x) && bool::denotes(s, x),
            ValueKind::Decimal => v matches Value::Decimal(x) && Decimal::denotes(s, x),
            ValueKind::Integer => v matches Value::Integer(x) && Integer::denotes(s, x),
            ValueKind::NonPositiveInteger => v matches Value::NonPositiveInteger(x)
                && NonPositiveInteger::denotes(s, x),
            ValueKind::NegativeInteger => v matches Value::NegativeInteger(x)
                && NegativeInteger::denotes(s, x),
            ValueKind::Long => v matches Value::Long(x) && Long::denotes(s, x),
            ValueKind::Int => v matches Value::Int(x) && Int::denotes(s, x),
            ValueKind::Short => v matches Value::Short(x) && Short::denotes(s, x),
            ValueKind::Byte => v matches Value::Byte(x) && Byte::denotes(s, x),
            ValueKind::NonNegativeInteger => v matches Value::NonNegativeInteger(x)
                && NonNegativeInteger::denotes(s, x),
            ValueKind::UnsignedLong => v matches Value::UnsignedLong(x)
                && UnsignedLong::denotes(s, x),
            ValueKind::UnsignedInt => v matches Value::UnsignedInt(x) && UnsignedInt::denotes(s, x),
            ValueKind::UnsignedShort => v matches Value::UnsignedShort(x)
                && UnsignedShort::denotes(s, x),
            ValueKind::UnsignedByte => v matches Value::UnsignedByte(x)
                && UnsignedByte::denotes(s, x),
            ValueKind::PositiveInteger => v matches Value::PositiveInteger(x)
                && PositiveInteger::denotes(s, x),
            ValueKind::Float => v matches Value::Float(x) && FloatBuf::denotes(s, x),
            ValueKind::Double => v matches Value::Double(x) && DoubleBuf::denotes(s, x),
            ValueKind::HexBinary => v matches Value::HexBinary(x) && HexBinaryBuf::denotes(s, x),
            ValueKind::Base64Binary => v matches Value::Base64Binary(x)
                && Base64BinaryBuf::denotes(s, x),
            ValueKind::AnyUri => v matches Value::AnyUri(x) && AnyUriBuf::denotes(s, x),
        }
    }

    /// Whether `e` is what the validator of the datatype of these values answers on `s`,
    /// which is no literal.
    pub open spec fn lexical_error(self, s: Seq<char>, e: LexicalError) -> bool {
        match self {
            ValueKind::String => String::lexical_error(s, e),
            ValueKind::Boolean => bool::lexical_error(s, e),
            ValueKind::Decimal => Decimal::lexical_error(s, e),
            ValueKind::Integer => Integer::lexical_error(s, e),
            ValueKind::NonPositiveInteger => NonPositiveInteger::lexical_error(s, e),
            ValueKind::NegativeInteger => NegativeInteger::lexical_error(s, e),
            ValueKind::Long => Long::lexical_error(s, e),
            ValueKind::Int => Int::lexical_error(s, e),
            ValueKind::Short => Short::lexical_error(s, e),
            ValueKind::Byte => Byte::lexical_error(s, e),
            ValueKind::NonNegativeInteger => NonNegativeInteger::lexical_error(s, e),
            ValueKind::UnsignedLong => UnsignedLong::lexical_error(s, e),
            ValueKind::UnsignedInt => UnsignedInt::lexical_error(s, e),
            ValueKind::UnsignedShort => UnsignedShort::lexical_error(s, e),
            ValueKind::UnsignedByte => UnsignedByte::lexical_error(s, e),
            ValueKind::PositiveInteger => PositiveInteger::lexical_error(s, e),
            ValueKind::Float => FloatBuf::lexical_error(s, e),
            ValueKind::Double => DoubleBuf::lexical_error(s, e),
            ValueKind::HexBinary => HexBinaryBuf::lexical_error(s, e),
            ValueKind::Base64Binary => Base64BinaryBuf::lexical_error(s, e),
            ValueKind::AnyUri => AnyUriBuf::lexical_error(s, e),
        }
    }

    /// Whether the text `s` denotes a value of this kind: `s` is a literal, and what it
    /// denotes lies in the value space.
    pub open spec fn accepts(self, s: Seq<char>) -> bool {
        self.is_literal(s) && self.in_value_space(s)
    }

    /// What `parse` answers on the text `s`: the value that `s` denotes when it denotes
    /// one, and otherwise the reason why it denotes none.
    pub open spec fn parsed(self, s: Seq<char>, r: Result<Value, ParseError>) -> bool {
        match r {
            Ok(v) => self.accepts(s) && self.denotes(s, v),
            Err(ParseError::InvalidLexicalForm(e)) => !self.is_literal(s) && self.lexical_error(
                s,
                e,
            ),
            Err(ParseError::InvalidValue(i)) => self.is_literal(s) && !self.in_value_space(s)
                && i@ == integer_value(s),
            Err(ParseError::Unsupported) => false,
        }
    }

    /// The value of this kind that the text `value` denotes.
    pub fn parse(&self, value: &str) -> (r: Result<Value, ParseError>)
        ensures
            r is Ok <==> self.accepts(value@),
            self.parsed(value@, r),
    {
        match self {
            ValueKind::String => match String::parse_rdf(value) {
                Ok(v) => Ok(Value::String(v)),
                Err(e) => Err(parse_error(e)),
            },
            ValueKind::Boolean => match bool::parse_rdf(value) {
                Ok(v) => Ok(Value::Boolean(v)),
                Err(e) => Err(parse_error(e)),
            },
            ValueKind::Decimal => match Decimal::parse_rdf(value) {
                Ok(v) => Ok(Value::Decimal(v)),
                Err(e) => Err(parse_error(e)),
            },
            ValueKind::Integer => match Integer::parse_rdf(value) {
                Ok(v) => Ok(Value::Integer(v)),
                Err(e) => Err(parse_error(e)),
            },
            ValueKind::NonPositiveInteger => match NonPositiveInteger::parse_rdf(value) {
                Ok(v) => Ok(Value::NonPositiveInteger(v)),
                Err(e) => Err(parse_error(e)),
            },
            ValueKind::NegativeInteger => match NegativeInteger::parse_rdf(value) {
                Ok(v) => Ok(Value::NegativeInteger(v)),
                Err(e) => Err(parse_error(e)),
            },
            ValueKind::Long => match Long::parse_rdf(value) {
                Ok(v) => Ok(Value::Long(v)),
                Err(e) => Err(parse_error(e)),
            },
            ValueKind::Int => match Int::parse_rdf(value) {
                Ok(v) => Ok(Value::Int(v)),
                Err(e) => Err(parse_error(e)),
            },
            ValueKind::Short => match Short::parse_rdf(value) {
                Ok(v) => Ok(Value::Short(v)),
                Err(e) => Err(parse_error(e)),
            },
            ValueKind::Byte => match Byte::parse_rdf(value) {
                Ok(v) => Ok(Value::Byte(v)),
                Err(e) => Err(parse_error(e)),
            },
            ValueKind::NonNegativeInteger => match NonNegativeInteger::parse_rdf(value) {
                Ok(v) => Ok(Value::NonNegativeInteger(v)),
                Err(e) => Err(parse_error(e)),
            },
            ValueKind::UnsignedLong => match UnsignedLong::parse_rdf(value) {
                Ok(v) => Ok(Value::UnsignedLong(v)),
                Err(e) => Err(parse_error(e)),
            },
            ValueKind::UnsignedInt => match UnsignedInt::parse_rdf(value) {
                Ok(v) => Ok(Value::UnsignedInt(v)),
                Err(e) => Err(parse_error(e)),
            },
            ValueKind::UnsignedShort => match UnsignedShort::parse_rdf(value) {
                Ok(v) => Ok(Value::UnsignedShort(v)),
                Err(e) => Err(parse_error(e)),
            },
            ValueKind::UnsignedByte => match UnsignedByte::parse_rdf(value) {
                Ok(v) => Ok(Value::UnsignedByte(v)),
                Err(e) => Err(parse_error(e)),
            },
            ValueKind::PositiveInteger => match PositiveInteger::parse_rdf(value) {
                Ok(v) => Ok(Value::PositiveInteger(v)),
                Err(e) => Err(parse_error(e)),
            },
            ValueKind::Float => match FloatBuf::parse_rdf(value) {
                Ok(v) => Ok(Value::Float(v)),
                Err(e) => Err(parse_error(e)),
            },
            ValueKind::Double => match DoubleBuf::parse_rdf(value) {
                Ok(v) => Ok(Value::Double(v)),
                Err(e) => Err(parse_error(e)),
            },
            ValueKind::HexBinary => match HexBinaryBuf::parse_rdf(value) {
                Ok(v) => Ok(Value::HexBinary(v)),
                Err(e) => Err(parse_error(e)),
            },
            ValueKind::Base64Binary => match Base64BinaryBuf::parse_rdf(value) {
                Ok(v) => Ok(Value::Base64Binary(v)),
                Err(e) => Err(parse_error(e)),
            },
            ValueKind::AnyUri => match AnyUriBuf::parse_rdf(value) {
                Ok(v) => Ok(Value::AnyUri(v)),
                Err(e) => Err(parse_error(e)),
            },
        }
    }

    /// The datatype of the values of this kind.
    pub open spec fn spec_datatype(self) -> Datatype {
        match self {
            ValueKind::String => Datatype::String(None),
            ValueKind::Boolean => Datatype::Boolean,
            ValueKind::Decimal => Datatype::Decimal(None),
            ValueKind::Integer => DecimalDatatype::Integer(None).datatype(),
            ValueKind::NonPositiveInteger => IntegerDatatype::NonPositiveInteger(None).datatype(),
            ValueKind::NegativeInteger => NonPositiveIntegerDatatype::NegativeInteger.datatype(),
            ValueKind::Long => IntegerDatatype::Long(None).datatype(),
            ValueKind::Int => LongDatatype::Int(None).datatype(),
            ValueKind::Short => IntDatatype::Short(None).datatype(),
            ValueKind::Byte => ShortDatatype::Byte.datatype(),
            ValueKind::NonNegativeInteger => IntegerDatatype::NonNegativeInteger(None).datatype(),
            ValueKind::UnsignedLong => NonNegativeIntegerDatatype::UnsignedLong(None).datatype(),
            ValueKind::UnsignedInt => UnsignedLongDatatype::UnsignedInt(None).datatype(),
            ValueKind::UnsignedShort => UnsignedIntDatatype::UnsignedShort(None).datatype(),
            ValueKind::UnsignedByte => UnsignedShortDatatype::UnsignedByte.datatype(),
            ValueKind::PositiveInteger => NonNegativeIntegerDatatype::PositiveInteger.datatype(),
            ValueKind::Float => Datatype::Float,
            ValueKind::Double => Datatype::Double,
            ValueKind::HexBinary => Datatype::HexBinary,
            ValueKind::Base64Binary => Datatype::Base64Binary,
            ValueKind::AnyUri => Datatype::AnyUri,
        }
    }

    /// The datatype of the values of this kind.
    pub fn datatype(&self) -> (r: Datatype)
        ensures
            r == self.spec_datatype(),
    {
        match self {
            ValueKind::String => Datatype::String(None),
            ValueKind::Boolean => Datatype::Boolean,
            ValueKind::Decimal => Datatype::Decimal(None),
            ValueKind::Integer => Datatype::from(DecimalDatatype::Integer(None)),
            ValueKind::NonPositiveInteger => Datatype::from(
                IntegerDatatype::NonPositiveInteger(None),
            ),
            ValueKind::NegativeInteger => Datatype::from(
                NonPositiveIntegerDatatype::NegativeInteger,
            ),
            ValueKind::Long => Datatype::from(IntegerDatatype::Long(None)),
            ValueKind::Int => Datatype::from(LongDatatype::Int(None)),
            ValueKind::Short => Datatype::from(IntDatatype::Short(None)),
            ValueKind::Byte => Datatype::from(ShortDatatype::Byte),
            ValueKind::NonNegativeInteger => Datatype::from(
                IntegerDatatype::NonNegativeInteger(None),
            ),
            ValueKind::UnsignedLong => Datatype::from(
                NonNegativeIntegerDatatype::UnsignedLong(None),
            ),
            ValueKind::UnsignedInt => Datatype::from(UnsignedLongDatatype::UnsignedInt(None)),
            ValueKind::UnsignedShort => Datatype::from(UnsignedIntDatatype::UnsignedShort(None)),
            ValueKind::UnsignedByte => Datatype::from(UnsignedShortDatatype::UnsignedByte),
            ValueKind::PositiveInteger => Datatype::from(
                NonNegativeIntegerDatatype::PositiveInteger,
            ),
            ValueKind::Float => Datatype::Float,
            ValueKind::Double => Datatype::Double,
            ValueKind::HexBinary => Datatype::HexBinary,
            ValueKind::Base64Binary => Datatype::Base64Binary,
            ValueKind::AnyUri => Datatype::AnyUri,
        }
    }
}

/// What a datatype's `parse` answers on the text `s`, where `kind` is the kind of its
/// values, if this library parses them: what the kind's `parse` answers, or
/// `Unsupported`.
pub open spec fn parsed_as(
    kind: Option<ValueKind>,
    s: Seq<char>,
    r: Result<Value, ParseError>,
) -> bool {
    match kind {
        Some(k) => k.parsed(s, r),
        None => r == Err::<Value, ParseError>(ParseError::Unsupported),
    }
}

/// Parses `value` as a value of the kind `kind`, if there is one.
fn parse_as(kind: Option<ValueKind>, value: &str) -> (r: Result<Value, ParseError>)
    ensures
        r is Ok <==> (kind matches Some(k) && k.accepts(value@)),
        parsed_as(kind, value@, r),
{
    match kind {
        Some(k) => k.parse(value),
        None => Err(ParseError::Unsupported),
    }
}

impl Datatype {
    /// The kind of the values of this datatype, if this library parses its literals.
    ///
    /// It parses none of the datatypes of dates, times and durations, of `QName` and
    /// `NOTATION`, and of the datatypes derived from `xsd:string`.
    pub open spec fn spec_value_kind(self) -> Option<ValueKind> {
        match self {
            Datatype::String(None) => Some(ValueKind::String),
            Datatype::String(Some(_)) => None,
            Datatype::Boolean => Some(ValueKind::Boolean),
            Datatype::Decimal(None) => Some(ValueKind::Decimal),
            Datatype::Decimal(Some(t)) => Some(t.spec_value_kind()),
            Datatype::Float => Some(ValueKind::Float),
            Datatype::Double => Some(ValueKind::Double),
            Datatype::HexBinary => Some(ValueKind::HexBinary),
            Datatype::Base64Binary => Some(ValueKind::Base64Binary),
            Datatype::AnyUri => Some(ValueKind::AnyUri),
            _ => None,
        }
    }

    /// The kind of the values of this datatype, if this library parses its literals.
    ///
    /// It parses none of the datatypes of dates, times and durations, of `QName` and
    /// `NOTATION`, and of the datatypes derived from `xsd:string`.
    pub fn value_kind(&self) -> (r: Option<ValueKind>)
        ensures
            r == self.spec_value_kind(),
    {
        match self {
            Datatype::String(None) => Some(ValueKind::String),
            Datatype::String(Some(_)) => None,
            Datatype::Boolean => Some(ValueKind::Boolean),
            Datatype::Decimal(None) => Some(ValueKind::Decimal),
            Datatype::Decimal(Some(t)) => Some(t.value_kind()),
            Datatype::Float => Some(ValueKind::Float),
            Datatype::Double => Some(ValueKind::Double),
            Datatype::HexBinary => Some(ValueKind::HexBinary),
            Datatype::Base64Binary => Some(ValueKind::Base64Binary),
            Datatype::AnyUri => Some(ValueKind::AnyUri),
            _ => None,
        }
    }

    /// Whether this library parses the literals of the datatype.
    pub open spec fn is_supported(self) -> bool {
        self.spec_value_kind() is Some
    }

    /// Whether the text `s` denotes a value of the datatype: the datatype is supported,
    /// `s` is one of its literals, and what `s` denotes lies in its value space.
    pub open spec fn accepts(self, s: Seq<char>) -> bool {
        self.spec_value_kind() matches Some(k) && k.accepts(s)
    }

    /// Whether `v` is the value of the datatype that the literal `s` denotes.
    pub open spec fn denotes(self, s: Seq<char>, v: Value) -> bool {
        self.spec_value_kind() matches Some(k) && k.denotes(s, v)
    }

    /// What `parse` answers on the text `s`: the value that `s` denotes when it denotes
    /// one, `Unsupported` when this library does not parse the datatype, and otherwise
    /// the reason why `s` denotes no value.
    pub open spec fn parsed(self, s: Seq<char>, r: Result<Value, ParseError>) -> bool {
        parsed_as(self.spec_value_kind(), s, r)
    }

    /// The value of this datatype that the text `value` denotes.
    pub fn parse(&self, value: &str) -> (r: Result<Value, ParseError>)
        ensures
            r is Ok <==> self.accepts(value@),
            self.parsed(value@, r),
    {
        parse_as(self.value_kind(), value)
    }
}

impl DecimalDatatype {
    /// The kind of the values of this datatype.
    pub open spec fn spec_value_kind(self) -> ValueKind {
        match self {
            DecimalDatatype::Integer(None) => ValueKind::Integer,
            DecimalDatatype::Integer(Some(t)) => t.spec_value_kind(),
        }
    }

    /// The kind of the values of this datatype.
    pub fn value_kind(&self) -> (r: ValueKind)
        ensures
            r == self.spec_value_kind(),
    {
        match self {
            DecimalDatatype::Integer(None) => ValueKind::Integer,
            DecimalDatatype::Integer(Some(t)) => t.value_kind(),
        }
    }

    /// The value of this datatype that the text `value` denotes.
    pub fn parse(&self, value: &str) -> (r: Result<Value, ParseError>)
        ensures
            r is Ok <==> self.spec_value_kind().accepts(value@),
            self.spec_value_kind().parsed(value@, r),
    {
        self.value_kind().parse(value)
    }
}

impl IntegerDatatype {
    /// The kind of the values of this datatype.
    pub open spec fn spec_value_kind(self) -> ValueKind {
        match self {
            IntegerDatatype::NonPositiveInteger(None) => ValueKind::NonPositiveInteger,
            IntegerDatatype::NonPositiveInteger(Some(t)) => t.spec_value_kind(),
            IntegerDatatype::Long(None) => ValueKind::Long,
            IntegerDatatype::Long(Some(t)) => t.spec_value_kind(),
            IntegerDatatype::NonNegativeInteger(None) => ValueKind::NonNegativeInteger,
            IntegerDatatype::NonNegativeInteger(Some(t)) => t.spec_value_kind(),
        }
    }

    /// The kind of the values of this datatype.
    pub fn value_kind(&self) -> (r: ValueKind)
        ensures
            r == self.spec_value_kind(),
    {
        match self {
            IntegerDatatype::NonPositiveInteger(None) => ValueKind::NonPositiveInteger,
            IntegerDatatype::NonPositiveInteger(Some(t)) => t.value_kind(),
            IntegerDatatype::Long(None) => ValueKind::Long,
            IntegerDatatype::Long(Some(t)) => t.value_kind(),
            IntegerDatatype::NonNegativeInteger(None) => ValueKind::NonNegativeInteger,
            IntegerDatatype::NonNegativeInteger(Some(t)) => t.value_kind(),
        }
    }

    /// The value of this datatype that the text `value` denotes.
    pub fn parse(&self, value: &str) -> (r: Result<Value, ParseError>)
        ensures
            r is Ok <==> self.spec_value_kind().accepts(value@),
            self.spec_value_kind().parsed(value@, r),
    {
        self.value_kind().parse(value)
    }
}

impl NonPositiveIntegerDatatype {
    /// The kind of the values of this datatype.
    pub open spec fn spec_value_kind(self) -> ValueKind {
        match self {
            NonPositiveIntegerDatatype::NegativeInteger => ValueKind::NegativeInteger,
        }
    }

    /// The kind of the values of this datatype.
    pub fn value_kind(&self) -> (r: ValueKind)
        ensures
            r == self.spec_value_kind(),
    {
        match self {
            NonPositiveIntegerDatatype::NegativeInteger => ValueKind::NegativeInteger,
        }
    }

    /// The value of this datatype that the text `value` denotes.
    pub fn parse(&self, value: &str) -> (r: Result<Value, ParseError>)
        ensures
            r is Ok <==> self.spec_value_kind().accepts(value@),
            self.spec_value_kind().parsed(value@, r),
    {
        self.value_kind().parse(value)
    }
}

impl LongDatatype {
    /// The kind of the values of this datatype.
    pub open spec fn spec_value_kind(self) -> ValueKind {
        match self {
            LongDatatype::Int(None) => ValueKind::Int,
            LongDatatype::Int(Some(t)) => t.spec_value_kind(),
        }
    }

    /// The kind of the values of this datatype.
    pub fn value_kind(&self) -> (r: ValueKind)
        ensures
            r == self.spec_value_kind(),
    {
        match self {
            LongDatatype::Int(None) => ValueKind::Int,
            LongDatatype::Int(Some(t)) => t.value_kind(),
        }
    }

    /// The value of this datatype that the text `value` denotes.
    pub fn parse(&self, value: &str) -> (r: Result<Value, ParseError>)
        ensures
            r is Ok <==> self.spec_value_kind().accepts(value@),
            self.spec_value_kind().parsed(value@, r),
    {
        self.value_kind().parse(value)
    }
}

impl IntDatatype {
    /// The kind of the values of this datatype.
    pub open spec fn spec_value_kind(self) -> ValueKind {
        match self {
            IntDatatype::Short(None) => ValueKind::Short,
            IntDatatype::Short(Some(t)) => t.spec_value_kind(),
        }
    }

    /// The kind of the values of this datatype.
    pub fn value_kind(&self) -> (r: ValueKind)
        ensures
            r == self.spec_value_kind(),
    {
        match self {
            IntDatatype::Short(None) => ValueKind::Short,
            IntDatatype::Short(Some(t)) => t.value_kind(),
        }
    }

    /// The value of this datatype that the text `value` denotes.
    pub fn parse(&self, value: &str) -> (r: Result<Value, ParseError>)
        ensures
            r is Ok <==> self.spec_value_kind().accepts(value@),
            self.spec_value_kind().parsed(value@, r),
    {
        self.value_kind().parse(value)
    }
}

impl ShortDatatype {
    /// The kind of the values of this datatype.
    pub open spec fn spec_value_kind(self) -> ValueKind {
        match self {
            ShortDatatype::Byte => ValueKind::Byte,
        }
    }

    /// The kind of the values of this datatype.
    pub fn value_kind(&self) -> (r: ValueKind)
        ensures
            r == self.spec_value_kind(),
    {
        match self {
            ShortDatatype::Byte => ValueKind::Byte,
        }
    }

    /// The value of this datatype that the text `value` denotes.
    pub fn parse(&self, value: &str) -> (r: Result<Value, ParseError>)
        ensures
            r is Ok <==> self.spec_value_kind().accepts(value@),
            self.spec_value_kind().parsed(value@, r),
    {
        self.value_kind().parse(value)
    }
}

impl NonNegativeIntegerDatatype {
    /// The kind of the values of this datatype.
    pub open spec fn spec_value_kind(self) -> ValueKind {
        match self {
            NonNegativeIntegerDatatype::UnsignedLong(None) => ValueKind::UnsignedLong,
            NonNegativeIntegerDatatype::UnsignedLong(Some(t)) => t.spec_value_kind(),
            NonNegativeIntegerDatatype::PositiveInteger => ValueKind::PositiveInteger,
        }
    }

    /// The kind of the values of this datatype.
    pub fn value_kind(&self) -> (r: ValueKind)
        ensures
            r == self.spec_value_kind(),
    {
        match self {
            NonNegativeIntegerDatatype::UnsignedLong(None) => ValueKind::UnsignedLong,
            NonNegativeIntegerDatatype::UnsignedLong(Some(t)) => t.value_kind(),
            NonNegativeIntegerDatatype::PositiveInteger => ValueKind::PositiveInteger,
        }
    }

    /// The value of this datatype that the text `value` denotes.
    pub fn parse(&self, value: &str) -> (r: Result<Value, ParseError>)
        ensures
            r is Ok <==> self.spec_value_kind().accepts(value@),
            self.spec_value_kind().parsed(value@, r),
    {
        self.value_kind().parse(value)
    }
}

impl UnsignedLongDatatype {
    /// The kind of the values of this datatype.
    pub open spec fn spec_value_kind(self) -> ValueKind {
        match self {
            UnsignedLongDatatype::UnsignedInt(None) => ValueKind::UnsignedInt,
            UnsignedLongDatatype::UnsignedInt(Some(t)) => t.spec_value_kind(),
        }
    }

    /// The kind of the values of this datatype.
    pub fn value_kind(&self) -> (r: ValueKind)
        ensures
            r == self.spec_value_kind(),
    {
        match self {
            UnsignedLongDatatype::UnsignedInt(None) => ValueKind::UnsignedInt,
            UnsignedLongDatatype::UnsignedInt(Some(t)) => t.value_kind(),
        }
    }

    /// The value of this datatype that the text `value` denotes.
    pub fn parse(&self, value: &str) -> (r: Result<Value, ParseError>)
        ensures
            r is Ok <==> self.spec_value_kind().accepts(value@),
            self.spec_value_kind().parsed(value@, r),
    {
        self.value_kind().parse(value)
    }
}

impl UnsignedIntDatatype {
    /// The kind of the values of this datatype.
    pub open spec fn spec_value_kind(self) -> ValueKind {
        match self {
            UnsignedIntDatatype::UnsignedShort(None) => ValueKind::UnsignedShort,
            UnsignedIntDatatype::UnsignedShort(Some(t)) => t.spec_value_kind(),
        }
    }

    /// The kind of the values of this datatype.
    pub fn value_kind(&self) -> (r: ValueKind)
        ensures
            r == self.spec_value_kind(),
    {
        match self {
            UnsignedIntDatatype::UnsignedShort(None) => ValueKind::UnsignedShort,
            UnsignedIntDatatype::UnsignedShort(Some(t)) => t.value_kind(),
        }
    }

    /// The value of this datatype that the text `value` denotes.
    pub fn parse(&self, value: &str) -> (r: Result<Value, ParseError>)
        ensures
            r is Ok <==> self.spec_value_kind().accepts(value@),
            self.spec_value_kind().parsed(value@, r),
    {
        self.value_kind().parse(value)
    }
}

impl UnsignedShortDatatype {
    /// The kind of the values of this datatype.
    pub open spec fn spec_value_kind(self) -> ValueKind {
        match self {
            UnsignedShortDatatype::UnsignedByte => ValueKind::UnsignedByte,
        }
    }

    /// The kind of the values of this datatype.
    pub fn value_kind(&self) -> (r: ValueKind)
        ensures
            r == self.spec_value_kind(),
    {
        match self {
            UnsignedShortDatatype::UnsignedByte => ValueKind::UnsignedByte,
        }
    }

    /// The value of this datatype that the text `value` denotes.
    pub fn parse(&self, value: &str) -> (r: Result<Value, ParseError>)
        ensures
            r is Ok <==> self.spec_value_kind().accepts(value@),
            self.spec_value_kind().parsed(value@, r),
    {
        self.value_kind().parse(value)
    }
}

impl ValueKind {
    /// Whether the integer `v` lies in the value space of the datatype of these values,
    /// for the kinds of integers; false for the other kinds.
    pub open spec fn admits_integer(self, v: int) -> bool {
        match self {
            ValueKind::Integer => true,
            ValueKind::NonPositiveInteger => v <= 0,
            ValueKind::NegativeInteger => v < 0,
            ValueKind::Long => -0x8000_0000_0000_0000 <= v <= 0x7fff_ffff_ffff_ffff,
            ValueKind::Int => -0x8000_0000 <= v <= 0x7fff_ffff,
            ValueKind::Short => -0x8000 <= v <= 0x7fff,
            ValueKind::Byte => -0x80 <= v <= 0x7f,
            ValueKind::NonNegativeInteger => v >= 0,
            ValueKind::UnsignedLong => 0 <= v <= 0xffff_ffff_ffff_ffff,
            ValueKind::UnsignedInt => 0 <= v <= 0xffff_ffff,
            ValueKind::UnsignedShort => 0 <= v <= 0xffff,
            ValueKind::UnsignedByte => 0 <= v <= 0xff,
            ValueKind::PositiveInteger => v > 0,
            _ => false,
        }
    }

    /// Whether the values of this kind are integers.
    pub open spec fn is_integer_kind(self) -> bool {
        self.admits_integer(0) || self.admits_integer(1) || self.admits_integer(-1)
    }
}

/// The texts that denote a value of a kind of integers are the literals of `xsd:integer`
/// that denote an integer of the value space of the kind.
pub proof fn lemma_integer_kinds_accept(k: ValueKind, s: Seq<char>)
    requires
        k.is_integer_kind(),
    ensures
        k.accepts(s) <==> is_integer(s) && k.admits_integer(integer_value(s)),
        forall|v: Value| #[trigger] k.denotes(s, v) ==> integer_of(v) == Some(integer_value(s)),
{
}

/// The datatype chosen for an integer admits that integer: it lies in the value space of
/// its narrowest datatype.
pub proof fn lemma_rung_admits(v: int)
    ensures
        integer_rung(v).spec_value_kind().admits_integer(v),
        v >= 0 ==> non_negative_integer_rung(v).spec_value_kind().admits_integer(v),
        v <= 0 ==> IntegerDatatype::NonPositiveInteger(
            non_positive_integer_rung(v),
        ).spec_value_kind().admits_integer(v),
{
}

/// Each ladder goes one step deeper exactly when the datatype of that step admits the
/// integer: so the datatype chosen is the deepest of its ladder that admits it.
pub proof fn lemma_rung_is_deepest(v: int)
    ensures
        short_rung(v) is Some <==> ValueKind::Byte.admits_integer(v),
        int_rung(v) is Some <==> ValueKind::Short.admits_integer(v),
        long_rung(v) is Some <==> ValueKind::Int.admits_integer(v),
        non_positive_integer_rung(v) is Some <==> ValueKind::NegativeInteger.admits_integer(v),
        v >= 0 ==> (unsigned_short_rung(v) is Some <==> ValueKind::UnsignedByte.admits_integer(v)),
        v >= 0 ==> (unsigned_int_rung(v) is Some <==> ValueKind::UnsignedShort.admits_integer(v)),
        v >= 0 ==> (unsigned_long_rung(v) is Some <==> ValueKind::UnsignedInt.admits_integer(v)),
        v >= 0 ==> (non_negative_integer_rung(v) is UnsignedLong
            <==> ValueKind::UnsignedLong.admits_integer(v)),
{
}

/// The integer that the value `v` holds, when it is a value of a datatype derived from
/// `xsd:integer`, or of `xsd:integer` itself.
pub open spec fn integer_of(v: Value) -> Option<int> {
    match v {
        Value::Integer(i) => Some(i@),
        Value::NonPositiveInteger(i) => Some(i@),
        Value::NegativeInteger(i) => Some(i@),
        Value::Long(i) => Some(i as int),
        Value::Int(i) => Some(i as int),
        Value::Short(i) => Some(i as int),
        Value::Byte(i) => Some(i as int),
        Value::NonNegativeInteger(i) => Some(i@),
        Value::UnsignedLong(i) => Some(i as int),
        Value::UnsignedInt(i) => Some(i as int),
        Value::UnsignedShort(i) => Some(i as int),
        Value::UnsignedByte(i) => Some(i as int),
        Value::PositiveInteger(i) => Some(i@),
        _ => None,
    }
}

/// What the canonical literals are known to be: literals that denote what they stand for.
proof fn lemma_canonical_literal(v: Value)
    requires
        v.wf(),
    ensures
        v.spec_kind().accepts(v.spec_lexical_representation()),
        v.spec_kind().denotes(v.spec_lexical_representation(), v),
        forall|w: Value|
            w.wf() && #[trigger] v.spec_kind().denotes(v.spec_lexical_representation(), w)
                ==> w.spec_lexical_representation() == v.spec_lexical_representation(),
{
    match v {
        Value::Boolean(b) => {
            lemma_canonical_boolean(b);
        },
        Value::Decimal(x) => {
            lemma_canonical_decimal(x@.0, x@.1);
        },
        Value::HexBinary(h) => {
            lemma_canonical_hex_binary(h@);
        },
        Value::Base64Binary(h) => {
            lemma_canonical_base64_binary(h@);
        },
        _ => {
            if let Some(i) = integer_of(v) {
                lemma_canonical_integer(i);
            }
        },
    }
}

/// Round trip: when the text `s` denotes the value `v` of the datatype `d`, the literal
/// that stands for `v` is a literal of `d` and denotes `v` again.
///
/// So whatever `parse` accepts, `parse` accepts what `lexical_representation` makes of the
/// result, and gives an equal value for it.
pub proof fn lemma_round_trip(d: Datatype, s: Seq<char>, v: Value)
    requires
        d.accepts(s),
        d.denotes(s, v),
        v.wf(),
    ensures
        d.accepts(v.spec_lexical_representation()),
        d.denotes(v.spec_lexical_representation(), v),
{
    lemma_canonical_literal(v);
}

/// Canonical literals are fixed: when the literal that stands for the value `v` of the
/// datatype `d` denotes the value `w` of `d`, the same literal stands for `w`.
///
/// So `lexical_representation` of `parse` of `lexical_representation` of a value is
/// `lexical_representation` of that value.
pub proof fn lemma_canonical_is_fixed(d: Datatype, v: Value, w: Value)
    requires
        d.spec_value_kind() == Some(v.spec_kind()),
        v.wf(),
        w.wf(),
        d.denotes(v.spec_lexical_representation(), w),
    ensures
        w.spec_lexical_representation() == v.spec_lexical_representation(),
{
    lemma_canonical_literal(v);
}

/// What `parse` gives is a value of the kind of the datatype asked for.
pub proof fn lemma_denoted_kind(d: Datatype, s: Seq<char>, v: Value)
    requires
        d.denotes(s, v),
    ensures
        d.spec_value_kind() == Some(v.spec_kind()),
{
}

/// The kind of the values of the datatype of a kind is that kind.
pub proof fn lemma_kind_of_datatype(k: ValueKind)
    ensures
        k.spec_datatype().spec_value_kind() == Some(k),
{
}

/// A supported datatype is the datatype of the kind of its values.
pub proof fn lemma_datatype_of_kind(d: Datatype)
    requires
        d.is_supported(),
    ensures
        d.spec_value_kind().unwrap().spec_datatype() == d,
{
    match d {
        Datatype::Decimal(Some(DecimalDatatype::Integer(Some(t)))) => {
            match t {
                IntegerDatatype::NonPositiveInteger(Some(u)) => {
                    assert(u == NonPositiveIntegerDatatype::NegativeInteger);
                },
                IntegerDatatype::Long(
                    Some(LongDatatype::Int(Some(IntDatatype::Short(Some(u))))),
                ) => {
                    assert(u == ShortDatatype::Byte);
                },
                IntegerDatatype::NonNegativeInteger(
                    Some(
                        NonNegativeIntegerDatatype::UnsignedLong(
                            Some(
                                UnsignedLongDatatype::UnsignedInt(
                                    Some(UnsignedIntDatatype::UnsignedShort(Some(u))),
                                ),
                            ),
                        ),
                    ),
                ) => {
                    assert(u == UnsignedShortDatatype::UnsignedByte);
                },
                _ => {},
            }
        },
        _ => {},
    }
}

} // verus!
