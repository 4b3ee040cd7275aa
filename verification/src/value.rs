//! Value spaces: what the literals of each datatype denote.
pub mod any_uri;
pub mod base64_binary;
pub mod big_int;
pub mod decimal;
pub mod hex_binary;
pub mod integer;
pub mod non_negative_integer;
pub mod non_positive_integer;

pub use crate::lexical::integer::Sign;
pub use any_uri::AnyUriBuf;
pub use base64_binary::Base64BinaryBuf;
pub use decimal::Decimal;
pub use hex_binary::HexBinaryBuf;
pub use integer::{
    ArithmeticError, Byte, Int, Integer, IntegerOutOfTargetBounds, Long, Short, XsdInt, XsdLong,
    XsdShort,
};
pub use non_negative_integer::{
    IntegerIsNegative, IntegerIsNotPositive, NonNegativeInteger,
    NonNegativeIntegerOutOfTargetBounds, PositiveInteger, UnsignedByte, UnsignedInt, UnsignedLong,
    UnsignedShort, XsdUnsignedInt, XsdUnsignedLong, XsdUnsignedShort,
};
pub use non_positive_integer::{
    IntegerIsNotNegative, IntegerIsPositive, NegativeInteger, NonPositiveInteger,
    NonPositiveIntegerOutOfTargetBounds,
};

use crate::datatype::Datatype;
use crate::lexical::base64_binary::canonical_base64_binary;
use crate::lexical::boolean::{boolean_lexical_representation, canonical_boolean};
use crate::lexical::decimal::canonical_decimal;
use crate::lexical::float::{DoubleBuf, FloatBuf};
use crate::lexical::hex_binary::canonical_hex_binary;
use crate::lexical::integer::canonical_integer;
use vstd::prelude::*;

verus! {

/// The kinds of values: one for each datatype whose literals this library parses.
#[derive(Clone, Copy, Debug, PartialEq, Eq, Hash)]
pub enum ValueKind {
    String,
    Boolean,
    Decimal,
    Integer,
    NonPositiveInteger,
    NegativeInteger,
    Long,
    Int,
    Short,
    Byte,
    NonNegativeInteger,
    UnsignedLong,
    UnsignedInt,
    UnsignedShort,
    UnsignedByte,
    PositiveInteger,
    Float,
    Double,
    HexBinary,
    Base64Binary,
    AnyUri,
}

/// A value of one of the datatypes.
#[derive(Debug, PartialEq, Eq, Hash)]
pub enum Value {
    String(String),
    Boolean(bool),
    Decimal(Decimal),
    Integer(Integer),
    NonPositiveInteger(NonPositiveInteger),
    NegativeInteger(NegativeInteger),
    Long(Long),
    Int(Int),
    Short(Short),
    Byte(Byte),
    NonNegativeInteger(NonNegativeInteger),
    UnsignedLong(UnsignedLong),
    UnsignedInt(UnsignedInt),
    UnsignedShort(UnsignedShort),
    UnsignedByte(UnsignedByte),
    PositiveInteger(PositiveInteger),
    /// A `float`, as its literal: this library computes nothing in floating point.
    Float(FloatBuf),
    /// A `double`, as its literal.
    Double(DoubleBuf),
    HexBinary(HexBinaryBuf),
    Base64Binary(Base64BinaryBuf),
    AnyUri(AnyUriBuf),
}

impl Value {
    /// What holds of every value: what holds of the value inside.
    pub open spec fn wf(&self) -> bool {
        match self {
            Value::String(s) => true,
            Value::Boolean(b) => true,
            Value::Decimal(d) => d.wf(),
            Value::Integer(i) => true,
            Value::NonPositiveInteger(i) => i.wf(),
            Value::NegativeInteger(i) => i.wf(),
            Value::Long(i) => true,
            Value::Int(i) => true,
            Value::Short(i) => true,
            Value::Byte(i) => true,
            Value::NonNegativeInteger(i) => i.wf(),
            Value::UnsignedLong(i) => true,
            Value::UnsignedInt(i) => true,
            Value::UnsignedShort(i) => true,
            Value::UnsignedByte(i) => true,
            Value::PositiveInteger(i) => i.wf(),
            Value::Float(l) => l.wf(),
            Value::Double(l) => l.wf(),
            Value::HexBinary(h) => true,
            Value::Base64Binary(h) => true,
            Value::AnyUri(u) => u.wf(),
        }
    }

    /// True when `other` is a value of the same kind that denotes the same thing.
    pub open spec fn same(&self, other: &Value) -> bool {
        match (self, other) {
            (Value::String(a), Value::String(b)) => a@ == b@,
            (Value::Boolean(a), Value::Boolean(b)) => a == b,
            (Value::Decimal(a), Value::Decimal(b)) => a@ == b@,
            (Value::Integer(a), Value::Integer(b)) => a@ == b@,
            (Value::NonPositiveInteger(a), Value::NonPositiveInteger(b)) => a@ == b@,
            (Value::NegativeInteger(a), Value::NegativeInteger(b)) => a@ == b@,
            (Value::Long(a), Value::Long(b)) => a == b,
            (Value::Int(a), Value::Int(b)) => a == b,
            (Value::Short(a), Value::Short(b)) => a == b,
            (Value::Byte(a), Value::Byte(b)) => a == b,
            (Value::NonNegativeInteger(a), Value::NonNegativeInteger(b)) => a@ == b@,
            (Value::UnsignedLong(a), Value::UnsignedLong(b)) => a == b,
            (Value::UnsignedInt(a), Value::UnsignedInt(b)) => a == b,
            (Value::UnsignedShort(a), Value::UnsignedShort(b)) => a == b,
            (Value::UnsignedByte(a), Value::UnsignedByte(b)) => a == b,
            (Value::PositiveInteger(a), Value::PositiveInteger(b)) => a@ == b@,
            (Value::Float(a), Value::Float(b)) => a@ == b@,
            (Value::Double(a), Value::Double(b)) => a@ == b@,
            (Value::HexBinary(a), Value::HexBinary(b)) => a@ == b@,
            (Value::Base64Binary(a), Value::Base64Binary(b)) => a@ == b@,
            (Value::AnyUri(a), Value::AnyUri(b)) => a@ == b@,
            _ => false,
        }
    }

    /// The kind of this value.
    pub open spec fn spec_kind(&self) -> ValueKind {
        match self {
            Value::String(_) => ValueKind::String,
            Value::Boolean(_) => ValueKind::Boolean,
            Value::Decimal(_) => ValueKind::Decimal,
            Value::Integer(_) => ValueKind::Integer,
            Value::NonPositiveInteger(_) => ValueKind::NonPositiveInteger,
            Value::NegativeInteger(_) => ValueKind::NegativeInteger,
            Value::Long(_) => ValueKind::Long,
            Value::Int(_) => ValueKind::Int,
            Value::Short(_) => ValueKind::Short,
            Value::Byte(_) => ValueKind::Byte,
            Value::NonNegativeInteger(_) => ValueKind::NonNegativeInteger,
            Value::UnsignedLong(_) => ValueKind::UnsignedLong,
            Value::UnsignedInt(_) => ValueKind::UnsignedInt,
            Value::UnsignedShort(_) => ValueKind::UnsignedShort,
            Value::UnsignedByte(_) => ValueKind::UnsignedByte,
            Value::PositiveInteger(_) => ValueKind::PositiveInteger,
            Value::Float(_) => ValueKind::Float,
            Value::Double(_) => ValueKind::Double,
            Value::HexBinary(_) => ValueKind::HexBinary,
            Value::Base64Binary(_) => ValueKind::Base64Binary,
            Value::AnyUri(_) => ValueKind::AnyUri,
        }
    }

    /// The datatype that this value was made as, which need not be the narrowest that
    /// holds it.
    pub open spec fn spec_datatype(&self) -> Datatype {
        self.spec_kind().spec_datatype()
    }

    /// The literal that stands for this value: its canonical literal, but for a `float`
    /// and a `double`, which stand as the literal they were read from.
    pub open spec fn spec_lexical_representation(&self) -> Seq<char> {
        match self {
            Value::String(s) => s@,
            Value::Boolean(b) => canonical_boolean(*b),
            Value::Decimal(d) => canonical_decimal(d@.0, d@.1),
            Value::Integer(i) => canonical_integer(i@),
            Value::NonPositiveInteger(i) => canonical_integer(i@),
            Value::NegativeInteger(i) => canonical_integer(i@),
            Value::Long(i) => canonical_integer(*i as int),
            Value::Int(i) => canonical_integer(*i as int),
            Value::Short(i) => canonical_integer(*i as int),
            Value::Byte(i) => canonical_integer(*i as int),
            Value::NonNegativeInteger(i) => canonical_integer(i@),
            Value::UnsignedLong(i) => canonical_integer(*i as int),
            Value::UnsignedInt(i) => canonical_integer(*i as int),
            Value::UnsignedShort(i) => canonical_integer(*i as int),
            Value::UnsignedByte(i) => canonical_integer(*i as int),
            Value::PositiveInteger(i) => canonical_integer(i@),
            Value::Float(l) => l@,
            Value::Double(l) => l@,
            Value::HexBinary(h) => canonical_hex_binary(h@),
            Value::Base64Binary(h) => canonical_base64_binary(h@),
            Value::AnyUri(u) => u@,
        }
    }

    /// The kind of this value.
    pub fn kind(&self) -> (r: ValueKind)
        ensures
            r == self.spec_kind(),
    {
        match self {
            Value::String(_) => ValueKind::String,
            Value::Boolean(_) => ValueKind::Boolean,
            Value::Decimal(_) => ValueKind::Decimal,
            Value::Integer(_) => ValueKind::Integer,
            Value::NonPositiveInteger(_) => ValueKind::NonPositiveInteger,
            Value::NegativeInteger(_) => ValueKind::NegativeInteger,
            Value::Long(_) => ValueKind::Long,
            Value::Int(_) => ValueKind::Int,
            Value::Short(_) => ValueKind::Short,
            Value::Byte(_) => ValueKind::Byte,
            Value::NonNegativeInteger(_) => ValueKind::NonNegativeInteger,
            Value::UnsignedLong(_) => ValueKind::UnsignedLong,
            Value::UnsignedInt(_) => ValueKind::UnsignedInt,
            Value::UnsignedShort(_) => ValueKind::UnsignedShort,
            Value::UnsignedByte(_) => ValueKind::UnsignedByte,
            Value::PositiveInteger(_) => ValueKind::PositiveInteger,
            Value::Float(_) => ValueKind::Float,
            Value::Double(_) => ValueKind::Double,
            Value::HexBinary(_) => ValueKind::HexBinary,
            Value::Base64Binary(_) => ValueKind::Base64Binary,
            Value::AnyUri(_) => ValueKind::AnyUri,
        }
    }

    /// The datatype that this value was made as, which need not be the narrowest that
    /// holds it.
    pub fn datatype(&self) -> (r: Datatype)
        ensures
            r == self.spec_datatype(),
    {
        self.kind().datatype()
    }

    /// The literal that stands for this value: its canonical literal, but for a `float`
    /// and a `double`, which stand as the literal they were read from.
    pub fn lexical_representation(&self) -> (r: String)
        ensures
            r@ == self.spec_lexical_representation(),
    {
        match self {
            Value::String(s) => s.clone(),
            Value::Boolean(b) => boolean_lexical_representation(*b).into_string(),
            Value::Decimal(d) => d.to_string(),
            Value::Integer(i) => i.to_string(),
            Value::NonPositiveInteger(i) => i.to_string(),
            Value::NegativeInteger(i) => i.to_string(),
            Value::Long(i) => Integer::from_i128(*i as i128).to_string(),
            Value::Int(i) => Integer::from_i128(*i as i128).to_string(),
            Value::Short(i) => Integer::from_i128(*i as i128).to_string(),
            Value::Byte(i) => Integer::from_i128(*i as i128).to_string(),
            Value::NonNegativeInteger(i) => i.to_string(),
            Value::UnsignedLong(i) => Integer::from_i128(*i as i128).to_string(),
            Value::UnsignedInt(i) => Integer::from_i128(*i as i128).to_string(),
            Value::UnsignedShort(i) => Integer::from_i128(*i as i128).to_string(),
            Value::UnsignedByte(i) => Integer::from_i128(*i as i128).to_string(),
            Value::PositiveInteger(i) => i.to_string(),
            Value::Float(l) => l.as_str().to_owned(),
            Value::Double(l) => l.as_str().to_owned(),
            Value::HexBinary(h) => h.to_string(),
            Value::Base64Binary(h) => h.to_string(),
            Value::AnyUri(u) => u.as_str().to_owned(),
        }
    }
}

impl Clone for Value {
    fn clone(&self) -> (r: Self)
        ensures
            r.same(self),
    {
        match self {
            Value::String(x) => Value::String(x.clone()),
            Value::Boolean(x) => Value::Boolean(*x),
            Value::Decimal(x) => Value::Decimal(x.clone()),
            Value::Integer(x) => Value::Integer(x.clone()),
            Value::NonPositiveInteger(x) => Value::NonPositiveInteger(x.clone()),
            Value::NegativeInteger(x) => Value::NegativeInteger(x.clone()),
            Value::Long(x) => Value::Long(*x),
            Value::Int(x) => Value::Int(*x),
            Value::Short(x) => Value::Short(*x),
            Value::Byte(x) => Value::Byte(*x),
            Value::NonNegativeInteger(x) => Value::NonNegativeInteger(x.clone()),
            Value::UnsignedLong(x) => Value::UnsignedLong(*x),
            Value::UnsignedInt(x) => Value::UnsignedInt(*x),
            Value::UnsignedShort(x) => Value::UnsignedShort(*x),
            Value::UnsignedByte(x) => Value::UnsignedByte(*x),
            Value::PositiveInteger(x) => Value::PositiveInteger(x.clone()),
            Value::Float(x) => Value::Float(x.clone()),
            Value::Double(x) => Value::Double(x.clone()),
            Value::HexBinary(x) => Value::HexBinary(x.clone()),
            Value::Base64Binary(x) => Value::Base64Binary(x.clone()),
            Value::AnyUri(x) => Value::AnyUri(x.clone()),
        }
    }
}

impl XsdDatatype for Value {
    open spec fn spec_type(&self) -> Datatype {
        match self {
            Value::String(s) => s.spec_type(),
            Value::Boolean(b) => b.spec_type(),
            Value::Decimal(d) => d.spec_type(),
            Value::Integer(i) => i.spec_type(),
            Value::NonPositiveInteger(i) => i.spec_type(),
            Value::NegativeInteger(i) => i.spec_type(),
            Value::Long(i) => i.spec_type(),
            Value::Int(i) => i.spec_type(),
            Value::Short(i) => i.spec_type(),
            Value::Byte(i) => i.spec_type(),
            Value::NonNegativeInteger(i) => i.spec_type(),
            Value::UnsignedLong(i) => i.spec_type(),
            Value::UnsignedInt(i) => i.spec_type(),
            Value::UnsignedShort(i) => i.spec_type(),
            Value::UnsignedByte(i) => i.spec_type(),
            Value::PositiveInteger(i) => i.spec_type(),
            Value::Float(l) => l.spec_type(),
            Value::Double(l) => l.spec_type(),
            Value::HexBinary(h) => h.spec_type(),
            Value::Base64Binary(h) => h.spec_type(),
            Value::AnyUri(u) => u.spec_type(),
        }
    }

    fn type_(&self) -> (r: Datatype) {
        match self {
            Value::String(s) => s.type_(),
            Value::Boolean(b) => b.type_(),
            Value::Decimal(d) => d.type_(),
            Value::Integer(i) => i.type_(),
            Value::NonPositiveInteger(i) => i.type_(),
            Value::NegativeInteger(i) => i.type_(),
            Value::Long(i) => i.type_(),
            Value::Int(i) => i.type_(),
            Value::Short(i) => i.type_(),
            Value::Byte(i) => i.type_(),
            Value::NonNegativeInteger(i) => i.type_(),
            Value::UnsignedLong(i) => i.type_(),
            Value::UnsignedInt(i) => i.type_(),
            Value::UnsignedShort(i) => i.type_(),
            Value::UnsignedByte(i) => i.type_(),
            Value::PositiveInteger(i) => i.type_(),
            Value::Float(l) => l.type_(),
            Value::Double(l) => l.type_(),
            Value::HexBinary(h) => h.type_(),
            Value::Base64Binary(h) => h.type_(),
            Value::AnyUri(u) => u.type_(),
        }
    }
}

impl XsdDatatype for String {
    open spec fn spec_type(&self) -> Datatype {
        Datatype::String(None)
    }

    fn type_(&self) -> (r: Datatype) {
        Datatype::String(None)
    }
}

impl XsdDatatype for bool {
    open spec fn spec_type(&self) -> Datatype {
        Datatype::Boolean
    }

    fn type_(&self) -> (r: Datatype) {
        Datatype::Boolean
    }
}

impl XsdDatatype for FloatBuf {
    open spec fn spec_type(&self) -> Datatype {
        Datatype::Float
    }

    fn type_(&self) -> (r: Datatype) {
        Datatype::Float
    }
}

impl XsdDatatype for DoubleBuf {
    open spec fn spec_type(&self) -> Datatype {
        Datatype::Double
    }

    fn type_(&self) -> (r: Datatype) {
        Datatype::Double
    }
}

/// A value that knows the narrowest datatype it belongs to.
pub trait XsdDatatype {
    /// The narrowest datatype of this value.
    spec fn spec_type(&self) -> Datatype;

    /// The narrowest datatype of this value.
    fn type_(&self) -> (r: Datatype)
        ensures
            r == self.spec_type(),
    ;
}

} // verus!
