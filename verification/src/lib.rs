//! Safe representations of the XSD built-in datatypes: a catalogue of the datatypes and
//! their IRIs, validators for their lexical spaces, their value spaces, and canonical
//! lexical forms.
pub mod datatype;
pub mod embedding;
pub mod lexical;
pub mod parse;
pub mod text;
pub mod value;

pub use datatype::{
    Datatype, DecimalDatatype, IntDatatype, IntegerDatatype, LongDatatype, NCNameDatatype,
    NameDatatype, NonNegativeIntegerDatatype, NonPositiveIntegerDatatype, NormalizedStringDatatype,
    PrimitiveDatatype, ShortDatatype, StringDatatype, TokenDatatype, UnsignedIntDatatype,
    UnsignedLongDatatype, UnsignedShortDatatype, XSD_ANY_URI, XSD_BASE64_BINARY, XSD_BOOLEAN,
    XSD_BYTE, XSD_DATE, XSD_DATE_TIME, XSD_DECIMAL, XSD_DOUBLE, XSD_DURATION, XSD_ENTITIES,
    XSD_ENTITY, XSD_FLOAT, XSD_G_DAY, XSD_G_MONTH, XSD_G_MONTH_DAY, XSD_G_YEAR, XSD_G_YEAR_MONTH,
    XSD_HEX_BINARY, XSD_ID, XSD_IDREF, XSD_IDREFS, XSD_INT, XSD_INTEGER, XSD_LANGUAGE, XSD_LONG,
    XSD_NAME, XSD_NC_NAME, XSD_NEGATIVE_INTEGER, XSD_NMTOKEN, XSD_NMTOKENS,
    XSD_NON_NEGATIVE_INTEGER, XSD_NON_POSITIVE_INTEGER, XSD_NORMALIZED_STRING, XSD_NOTATION,
    XSD_POSITIVE_INTEGER, XSD_Q_NAME, XSD_SHORT, XSD_STRING, XSD_TIME, XSD_TOKEN, XSD_UNSIGNED_BYTE,
    XSD_UNSIGNED_INT, XSD_UNSIGNED_LONG, XSD_UNSIGNED_SHORT,
};
pub use lexical::LexicalError;
pub use parse::{ParseError, ParseRdf, ParseRdfError};
pub use value::{
    AnyUriBuf, ArithmeticError, Base64BinaryBuf, Byte, Decimal, HexBinaryBuf, Int, Integer,
    IntegerIsNegative, IntegerIsNotNegative, IntegerIsNotPositive, IntegerIsPositive,
    IntegerOutOfTargetBounds, Long, NegativeInteger, NonNegativeInteger,
    NonNegativeIntegerOutOfTargetBounds, NonPositiveInteger, NonPositiveIntegerOutOfTargetBounds,
    PositiveInteger, Short, Sign, UnsignedByte, UnsignedInt, UnsignedLong, UnsignedShort, Value,
    ValueKind, XsdDatatype, XsdInt, XsdLong, XsdShort, XsdUnsignedInt, XsdUnsignedLong,
    XsdUnsignedShort,
};
