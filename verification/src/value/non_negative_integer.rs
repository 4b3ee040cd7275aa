//! The value spaces of `xsd:nonNegativeInteger` and of the datatypes derived from it.
use crate::datatype::{
    Datatype, IntegerDatatype, NonNegativeIntegerDatatype, UnsignedIntDatatype,
    UnsignedLongDatatype, UnsignedShortDatatype,
};
use crate::lexical::LexicalError;
use crate::lexical::integer::{
    canonical_integer, integer_outcome, integer_value, is_integer, is_non_negative_integer,
    is_positive_integer, lemma_canonical_integer, restricted_outcome, NonNegativeIntegerBuf,
    PositiveIntegerBuf,
};
use crate::parse::{ParseRdf, ParseRdfError};
use crate::value::XsdDatatype;
use crate::value::big_int::truncated_div;
use crate::value::integer::{ArithmeticError, Integer};
use vstd::prelude::*;
use vstd::std_specs::convert::FromSpecImpl;

verus! {

/// An integer that is zero or more.
#[derive(Debug, PartialEq, Eq, Hash)]
pub struct NonNegativeInteger {
    value: Integer,
}

/// The integer that was refused: it is negative.
#[derive(Debug, PartialEq, Eq, Hash)]
pub struct IntegerIsNegative(pub Integer);

impl View for NonNegativeInteger {
    type V = int;

    closed spec fn view(&self) -> int {
        self.value@
    }
}

impl Clone for NonNegativeInteger {
    fn clone(&self) -> (r: Self)
        ensures
            r@ == self@,
    {
        proof {
            use_type_invariant(self);
        }
        NonNegativeInteger { value: self.value.clone() }
    }
}

impl NonNegativeInteger {
    /// What holds of every value of this type.
    #[verifier::type_invariant]
    pub open spec fn wf(&self) -> bool {
        self@ >= 0
    }

    /// Wraps an integer that the caller knows to be zero or more.
    pub(crate) fn new_unchecked(value: Integer) -> (r: Self)
        requires
            value@ >= 0,
        ensures
            r@ == value@,
    {
        NonNegativeInteger { value }
    }

    /// Wraps `value` when it is zero or more, and hands it back when it is not.
    pub fn try_from(value: Integer) -> (r: Result<Self, IntegerIsNegative>)
        ensures
            r is Ok <==> value@ >= 0,
            r matches Ok(v) ==> v@ == value@,
            r matches Err(e) ==> e.0@ == value@,
    {
        if value.is_negative() {
            Err(IntegerIsNegative(value))
        } else {
            Ok(NonNegativeInteger { value })
        }
    }

    /// Reads a value from a literal of `xsd:nonNegativeInteger`.
    pub fn from_str(s: &str) -> (r: Result<Self, LexicalError>)
        ensures
            r is Ok <==> is_non_negative_integer(s@),
            r matches Ok(v) ==> v@ == integer_value(s@),
            r matches Err(e) ==> restricted_outcome(s@, |v: int| v >= 0, Err(e)),
    {
        match NonNegativeIntegerBuf::new(s) {
            Ok(l) => Ok(l.value()),
            Err(e) => Err(e),
        }
    }

    /// This value as an integer without bound.
    pub fn as_integer(&self) -> (r: &Integer)
        ensures
            r@ == self@,
            r@ >= 0,
    {
        proof {
            use_type_invariant(self);
        }
        &self.value
    }

    /// This value as an integer without bound.
    pub fn into_integer(self) -> (r: Integer)
        ensures
            r@ == self@,
            r@ >= 0,
    {
        proof {
            use_type_invariant(&self);
        }
        self.value
    }

    /// The canonical literal of this value.
    pub fn to_string(&self) -> (r: String)
        ensures
            r@ == canonical_integer(self@),
    {
        self.value.to_string()
    }

    /// The canonical literal of this value, as a validated literal.
    pub fn lexical_representation(&self) -> (r: NonNegativeIntegerBuf)
        ensures
            r@ == canonical_integer(self@),
    {
        proof {
            use_type_invariant(self);
            lemma_canonical_integer(self@);
        }
        NonNegativeIntegerBuf::new_unchecked(self.value.to_string())
    }

    /// The sum of this value and `rhs`, when it is zero or more.
    pub fn checked_add(&self, rhs: &Integer) -> (r: Result<Self, ArithmeticError>)
        ensures
            r is Ok <==> self@ + rhs@ >= 0,
            r matches Ok(v) ==> v@ == self@ + rhs@,
            r matches Err(e) ==> e matches ArithmeticError::OutOfBounds(v) && v@ == self@ + rhs@,
    {
        Self::bounded(self.value.add(rhs))
    }

    /// The difference of this value and `rhs`, when it is zero or more.
    pub fn checked_sub(&self, rhs: &Integer) -> (r: Result<Self, ArithmeticError>)
        ensures
            r is Ok <==> self@ - rhs@ >= 0,
            r matches Ok(v) ==> v@ == self@ - rhs@,
            r matches Err(e) ==> e matches ArithmeticError::OutOfBounds(v) && v@ == self@ - rhs@,
    {
        Self::bounded(self.value.sub(rhs))
    }

    /// The product of this value and `rhs`, when it is zero or more.
    pub fn checked_mul(&self, rhs: &Integer) -> (r: Result<Self, ArithmeticError>)
        ensures
            r is Ok <==> self@ * rhs@ >= 0,
            r matches Ok(v) ==> v@ == self@ * rhs@,
            r matches Err(e) ==> e matches ArithmeticError::OutOfBounds(v) && v@ == self@ * rhs@,
    {
        Self::bounded(self.value.mul(rhs))
    }

    /// The quotient of this value by `rhs`, rounded towards zero, when `rhs` is not zero
    /// and the quotient is zero or more.
    pub fn checked_div(&self, rhs: &Integer) -> (r: Result<Self, ArithmeticError>)
        ensures
            r is Ok <==> rhs@ != 0 && truncated_div(self@, rhs@) >= 0,
            r matches Ok(v) ==> v@ == truncated_div(self@, rhs@),
            r matches Err(e) ==> if rhs@ == 0 {
                e is DivisionByZero
            } else {
                e matches ArithmeticError::OutOfBounds(v) && v@ == truncated_div(self@, rhs@)
            },
    {
        match self.value.checked_div(rhs) {
            Some(q) => Self::bounded(q),
            None => Err(ArithmeticError::DivisionByZero),
        }
    }

    /// Wraps the result of an operation when it is zero or more.
    fn bounded(value: Integer) -> (r: Result<Self, ArithmeticError>)
        ensures
            r is Ok <==> value@ >= 0,
            r matches Ok(v) ==> v@ == value@,
            r matches Err(e) ==> e matches ArithmeticError::OutOfBounds(v) && v@ == value@,
    {
        if value.is_negative() {
            Err(ArithmeticError::OutOfBounds(value))
        } else {
            Ok(NonNegativeInteger { value })
        }
    }
}

impl NonNegativeIntegerBuf {
    /// The value that this literal denotes.
    pub fn value(&self) -> (r: NonNegativeInteger)
        ensures
            r@ == integer_value(self@),
    {
        let s = self.as_str();
        NonNegativeInteger::new_unchecked(Integer::from_literal(s))
    }
}

/// An integer that is one or more.
#[derive(Debug, PartialEq, Eq, Hash)]
pub struct PositiveInteger {
    value: Integer,
}

/// The integer that was refused: it is zero or negative.
#[derive(Debug, PartialEq, Eq, Hash)]
pub struct IntegerIsNotPositive(pub Integer);

impl View for PositiveInteger {
    type V = int;

    closed spec fn view(&self) -> int {
        self.value@
    }
}

impl Clone for PositiveInteger {
    fn clone(&self) -> (r: Self)
        ensures
            r@ == self@,
    {
        proof {
            use_type_invariant(self);
        }
        PositiveInteger { value: self.value.clone() }
    }
}

impl PositiveInteger {
    /// What holds of every value of this type.
    #[verifier::type_invariant]
    pub open spec fn wf(&self) -> bool {
        self@ > 0
    }

    /// Wraps an integer that the caller knows to be one or more.
    pub(crate) fn new_unchecked(value: Integer) -> (r: Self)
        requires
            value@ > 0,
        ensures
            r@ == value@,
    {
        PositiveInteger { value }
    }

    /// Wraps `value` when it is one or more, and hands it back when it is not.
    pub fn try_from(value: Integer) -> (r: Result<Self, IntegerIsNotPositive>)
        ensures
            r is Ok <==> value@ > 0,
            r matches Ok(v) ==> v@ == value@,
            r matches Err(e) ==> e.0@ == value@,
    {
        if !value.is_positive() {
            Err(IntegerIsNotPositive(value))
        } else {
            Ok(PositiveInteger { value })
        }
    }

    /// Reads a value from a literal of `xsd:positiveInteger`.
    pub fn from_str(s: &str) -> (r: Result<Self, LexicalError>)
        ensures
            r is Ok <==> is_positive_integer(s@),
            r matches Ok(v) ==> v@ == integer_value(s@),
            r matches Err(e) ==> restricted_outcome(s@, |v: int| v > 0, Err(e)),
    {
        match PositiveIntegerBuf::new(s) {
            Ok(l) => Ok(l.value()),
            Err(e) => Err(e),
        }
    }

    /// This value as an integer without bound.
    pub fn as_integer(&self) -> (r: &Integer)
        ensures
            r@ == self@,
            r@ > 0,
    {
        proof {
            use_type_invariant(self);
        }
        &self.value
    }

    /// This value as an integer without bound.
    pub fn into_integer(self) -> (r: Integer)
        ensures
            r@ == self@,
            r@ > 0,
    {
        proof {
            use_type_invariant(&self);
        }
        self.value
    }

    /// The canonical literal of this value.
    pub fn to_string(&self) -> (r: String)
        ensures
            r@ == canonical_integer(self@),
    {
        self.value.to_string()
    }

    /// The canonical literal of this value, as a validated literal.
    pub fn lexical_representation(&self) -> (r: PositiveIntegerBuf)
        ensures
            r@ == canonical_integer(self@),
    {
        proof {
            use_type_invariant(self);
            lemma_canonical_integer(self@);
        }
        PositiveIntegerBuf::new_unchecked(self.value.to_string())
    }

    /// The sum of this value and `rhs`, when it is one or more.
    pub fn checked_add(&self, rhs: &Integer) -> (r: Result<Self, ArithmeticError>)
        ensures
            r is Ok <==> self@ + rhs@ > 0,
            r matches Ok(v) ==> v@ == self@ + rhs@,
            r matches Err(e) ==> e matches ArithmeticError::OutOfBounds(v) && v@ == self@ + rhs@,
    {
        Self::bounded(self.value.add(rhs))
    }

    /// The difference of this value and `rhs`, when it is one or more.
    pub fn checked_sub(&self, rhs: &Integer) -> (r: Result<Self, ArithmeticError>)
        ensures
            r is Ok <==> self@ - rhs@ > 0,
            r matches Ok(v) ==> v@ == self@ - rhs@,
            r matches Err(e) ==> e matches ArithmeticError::OutOfBounds(v) && v@ == self@ - rhs@,
    {
        Self::bounded(self.value.sub(rhs))
    }

    /// The product of this value and `rhs`, when it is one or more.
    pub fn checked_mul(&self, rhs: &Integer) -> (r: Result<Self, ArithmeticError>)
        ensures
            r is Ok <==> self@ * rhs@ > 0,
            r matches Ok(v) ==> v@ == self@ * rhs@,
            r matches Err(e) ==> e matches ArithmeticError::OutOfBounds(v) && v@ == self@ * rhs@,
    {
        Self::bounded(self.value.mul(rhs))
    }

    /// The quotient of this value by `rhs`, rounded towards zero, when `rhs` is not zero
    /// and the quotient is one or more.
    pub fn checked_div(&self, rhs: &Integer) -> (r: Result<Self, ArithmeticError>)
        ensures
            r is Ok <==> rhs@ != 0 && truncated_div(self@, rhs@) > 0,
            r matches Ok(v) ==> v@ == truncated_div(self@, rhs@),
            r matches Err(e) ==> if rhs@ == 0 {
                e is DivisionByZero
            } else {
                e matches ArithmeticError::OutOfBounds(v) && v@ == truncated_div(self@, rhs@)
            },
    {
        match self.value.checked_div(rhs) {
            Some(q) => Self::bounded(q),
            None => Err(ArithmeticError::DivisionByZero),
        }
    }

    /// Wraps the result of an operation when it is one or more.
    fn bounded(value: Integer) -> (r: Result<Self, ArithmeticError>)
        ensures
            r is Ok <==> value@ > 0,
            r matches Ok(v) ==> v@ == value@,
            r matches Err(e) ==> e matches ArithmeticError::OutOfBounds(v) && v@ == value@,
    {
        if !value.is_positive() {
            Err(ArithmeticError::OutOfBounds(value))
        } else {
            Ok(PositiveInteger { value })
        }
    }
}

impl PositiveIntegerBuf {
    /// The value that this literal denotes.
    pub fn value(&self) -> (r: PositiveInteger)
        ensures
            r@ == integer_value(self@),
    {
        let s = self.as_str();
        PositiveInteger::new_unchecked(Integer::from_literal(s))
    }
}

/// The narrowest datatype derived from `xsd:unsignedShort` that holds `v`, if there is
/// one: `unsignedByte` up to 255.
pub open spec fn unsigned_short_rung(v: int) -> Option<UnsignedShortDatatype> {
    if v <= 0xff {
        Some(UnsignedShortDatatype::UnsignedByte)
    } else {
        None
    }
}

/// The narrowest datatype derived from `xsd:unsignedInt` that holds `v`, if there is one:
/// `unsignedShort` up to 65535, or what is narrower still.
pub open spec fn unsigned_int_rung(v: int) -> Option<UnsignedIntDatatype> {
    if v <= 0xffff {
        Some(UnsignedIntDatatype::UnsignedShort(unsigned_short_rung(v)))
    } else {
        None
    }
}

/// The narrowest datatype derived from `xsd:unsignedLong` that holds `v`, if there is one:
/// `unsignedInt` up to 4294967295, or what is narrower still.
pub open spec fn unsigned_long_rung(v: int) -> Option<UnsignedLongDatatype> {
    if v <= 0xffff_ffff {
        Some(UnsignedLongDatatype::UnsignedInt(unsigned_int_rung(v)))
    } else {
        None
    }
}

/// The narrowest datatype derived from `xsd:nonNegativeInteger` that holds `v`, for `v`
/// zero or more: `unsignedLong` up to 18446744073709551615, or what is narrower still, and
/// `positiveInteger` above.
pub open spec fn non_negative_integer_rung(v: int) -> NonNegativeIntegerDatatype {
    if v <= 0xffff_ffff_ffff_ffff {
        NonNegativeIntegerDatatype::UnsignedLong(unsigned_long_rung(v))
    } else {
        NonNegativeIntegerDatatype::PositiveInteger
    }
}

impl NonNegativeInteger {
    /// Zero.
    pub fn zero() -> (r: Self)
        ensures
            r@ == 0,
    {
        NonNegativeInteger { value: Integer::zero() }
    }

    /// True for zero.
    pub fn is_zero(&self) -> (r: bool)
        ensures
            r == (self@ == 0),
    {
        self.value.is_zero()
    }

    /// The narrowest datatype derived from `xsd:nonNegativeInteger` that holds this value.
    pub fn non_negative_integer_type(&self) -> (r: Option<NonNegativeIntegerDatatype>)
        ensures
            r == Some(non_negative_integer_rung(self@)),
    {
        proof {
            use_type_invariant(self);
        }
        match self.value.to_i128() {
            Some(v) if v <= u64::MAX as i128 => Some(
                NonNegativeIntegerDatatype::UnsignedLong((v as u64).unsigned_long_type()),
            ),
            _ => Some(NonNegativeIntegerDatatype::PositiveInteger),
        }
    }
}

impl XsdDatatype for NonNegativeInteger {
    open spec fn spec_type(&self) -> Datatype {
        non_negative_integer_rung(self@).datatype()
    }

    fn type_(&self) -> (r: Datatype) {
        match self.non_negative_integer_type() {
            Some(t) => Datatype::from(t),
            None => Datatype::from(IntegerDatatype::NonNegativeInteger(None)),
        }
    }
}

impl PositiveInteger {
    /// True for one.
    pub fn is_one(&self) -> (r: bool)
        ensures
            r == (self@ == 1),
    {
        match self.value.to_i128() {
            Some(v) => v == 1,
            None => false,
        }
    }

    /// This value as an integer that is zero or more.
    pub fn into_non_negative_integer(self) -> (r: NonNegativeInteger)
        ensures
            r@ == self@,
    {
        proof {
            use_type_invariant(&self);
        }
        NonNegativeInteger { value: self.value }
    }
}

impl XsdDatatype for PositiveInteger {
    open spec fn spec_type(&self) -> Datatype {
        NonNegativeIntegerDatatype::PositiveInteger.datatype()
    }

    fn type_(&self) -> (r: Datatype) {
        Datatype::from(NonNegativeIntegerDatatype::PositiveInteger)
    }
}

pub type UnsignedLong = u64;

pub type UnsignedInt = u32;

pub type UnsignedShort = u16;

pub type UnsignedByte = u8;

/// An `xsd:unsignedLong` that tells the narrowest datatype derived from `xsd:unsignedLong`
/// that holds it.
pub trait XsdUnsignedLong {
    fn unsigned_long_type(&self) -> Option<UnsignedLongDatatype>;
}

impl XsdUnsignedLong for UnsignedLong {
    fn unsigned_long_type(&self) -> (r: Option<UnsignedLongDatatype>)
        ensures
            r == unsigned_long_rung(*self as int),
    {
        if *self <= 0xff {
            Some(UnsignedShortDatatype::UnsignedByte.into())
        } else if *self <= 0xffff {
            Some(UnsignedIntDatatype::UnsignedShort(None).into())
        } else if *self <= 0xffff_ffff {
            Some(UnsignedLongDatatype::UnsignedInt(None))
        } else {
            None
        }
    }
}

impl XsdDatatype for UnsignedLong {
    open spec fn spec_type(&self) -> Datatype {
        NonNegativeIntegerDatatype::UnsignedLong(unsigned_long_rung(*self as int)).datatype()
    }

    fn type_(&self) -> (r: Datatype) {
        Datatype::from(NonNegativeIntegerDatatype::UnsignedLong(self.unsigned_long_type()))
    }
}

/// An `xsd:unsignedInt` that tells the narrowest datatype derived from `xsd:unsignedInt`
/// that holds it.
pub trait XsdUnsignedInt {
    fn unsigned_int_type(&self) -> Option<UnsignedIntDatatype>;
}

impl XsdUnsignedInt for UnsignedInt {
    fn unsigned_int_type(&self) -> (r: Option<UnsignedIntDatatype>)
        ensures
            r == unsigned_int_rung(*self as int),
    {
        if *self <= 0xff {
            Some(UnsignedShortDatatype::UnsignedByte.into())
        } else if *self <= 0xffff {
            Some(UnsignedIntDatatype::UnsignedShort(None))
        } else {
            None
        }
    }
}

impl XsdDatatype for UnsignedInt {
    open spec fn spec_type(&self) -> Datatype {
        UnsignedLongDatatype::UnsignedInt(unsigned_int_rung(*self as int)).datatype()
    }

    fn type_(&self) -> (r: Datatype) {
        Datatype::from(UnsignedLongDatatype::UnsignedInt(self.unsigned_int_type()))
    }
}

/// An `xsd:unsignedShort` that tells the narrowest datatype derived from
/// `xsd:unsignedShort` that holds it.
pub trait XsdUnsignedShort {
    fn unsigned_short_type(&self) -> Option<UnsignedShortDatatype>;
}

impl XsdUnsignedShort for UnsignedShort {
    fn unsigned_short_type(&self) -> (r: Option<UnsignedShortDatatype>)
        ensures
            r == unsigned_short_rung(*self as int),
    {
        if *self <= 0xff {
            Some(UnsignedShortDatatype::UnsignedByte)
        } else {
            None
        }
    }
}

impl XsdDatatype for UnsignedShort {
    open spec fn spec_type(&self) -> Datatype {
        UnsignedIntDatatype::UnsignedShort(unsigned_short_rung(*self as int)).datatype()
    }

    fn type_(&self) -> (r: Datatype) {
        Datatype::from(UnsignedIntDatatype::UnsignedShort(self.unsigned_short_type()))
    }
}

impl XsdDatatype for UnsignedByte {
    open spec fn spec_type(&self) -> Datatype {
        UnsignedShortDatatype::UnsignedByte.datatype()
    }

    fn type_(&self) -> (r: Datatype) {
        Datatype::from(UnsignedShortDatatype::UnsignedByte)
    }
}

/// The value that was refused: it does not fit the machine integer asked for.
#[derive(Debug, PartialEq, Eq, Hash)]
pub struct NonNegativeIntegerOutOfTargetBounds(pub NonNegativeInteger);

impl NonNegativeInteger {
    /// This value as a `u8`, when it fits; the value itself when it does not.
    pub fn to_u8(self) -> (r: Result<u8, NonNegativeIntegerOutOfTargetBounds>)
        ensures
            r is Ok <==> u8::MIN <= self@ <= u8::MAX,
            r matches Ok(v) ==> v == self@,
            r matches Err(e) ==> e.0@ == self@,
    {
        match self.value.to_i128() {
            Some(v) if u8::MIN as i128 <= v && v <= u8::MAX as i128 => Ok(v as u8),
            _ => Err(NonNegativeIntegerOutOfTargetBounds(self)),
        }
    }

    /// This value as a `u16`, when it fits; the value itself when it does not.
    pub fn to_u16(self) -> (r: Result<u16, NonNegativeIntegerOutOfTargetBounds>)
        ensures
            r is Ok <==> u16::MIN <= self@ <= u16::MAX,
            r matches Ok(v) ==> v == self@,
            r matches Err(e) ==> e.0@ == self@,
    {
        match self.value.to_i128() {
            Some(v) if u16::MIN as i128 <= v && v <= u16::MAX as i128 => Ok(v as u16),
            _ => Err(NonNegativeIntegerOutOfTargetBounds(self)),
        }
    }

    /// This value as a `u32`, when it fits; the value itself when it does not.
    pub fn to_u32(self) -> (r: Result<u32, NonNegativeIntegerOutOfTargetBounds>)
        ensures
            r is Ok <==> u32::MIN <= self@ <= u32::MAX,
            r matches Ok(v) ==> v == self@,
            r matches Err(e) ==> e.0@ == self@,
    {
        match self.value.to_i128() {
            Some(v) if u32::MIN as i128 <= v && v <= u32::MAX as i128 => Ok(v as u32),
            _ => Err(NonNegativeIntegerOutOfTargetBounds(self)),
        }
    }

    /// This value as a `u64`, when it fits; the value itself when it does not.
    pub fn to_u64(self) -> (r: Result<u64, NonNegativeIntegerOutOfTargetBounds>)
        ensures
            r is Ok <==> u64::MIN <= self@ <= u64::MAX,
            r matches Ok(v) ==> v == self@,
            r matches Err(e) ==> e.0@ == self@,
    {
        match self.value.to_i128() {
            Some(v) if u64::MIN as i128 <= v && v <= u64::MAX as i128 => Ok(v as u64),
            _ => Err(NonNegativeIntegerOutOfTargetBounds(self)),
        }
    }

    /// This value as a `usize`, when it fits; the value itself when it does not.
    pub fn to_usize(self) -> (r: Result<usize, NonNegativeIntegerOutOfTargetBounds>)
        ensures
            r is Ok <==> usize::MIN <= self@ <= usize::MAX,
            r matches Ok(v) ==> v == self@,
            r matches Err(e) ==> e.0@ == self@,
    {
        match self.value.to_i128() {
            Some(v) if usize::MIN as i128 <= v && v <= usize::MAX as i128 => Ok(v as usize),
            _ => Err(NonNegativeIntegerOutOfTargetBounds(self)),
        }
    }

    /// This value as an `i8`, when it fits; the value itself when it does not.
    pub fn to_i8(self) -> (r: Result<i8, NonNegativeIntegerOutOfTargetBounds>)
        ensures
            r is Ok <==> i8::MIN <= self@ <= i8::MAX,
            r matches Ok(v) ==> v == self@,
            r matches Err(e) ==> e.0@ == self@,
    {
        match self.value.to_i128() {
            Some(v) if i8::MIN as i128 <= v && v <= i8::MAX as i128 => Ok(v as i8),
            _ => Err(NonNegativeIntegerOutOfTargetBounds(self)),
        }
    }

    /// This value as an `i16`, when it fits; the value itself when it does not.
    pub fn to_i16(self) -> (r: Result<i16, NonNegativeIntegerOutOfTargetBounds>)
        ensures
            r is Ok <==> i16::MIN <= self@ <= i16::MAX,
            r matches Ok(v) ==> v == self@,
            r matches Err(e) ==> e.0@ == self@,
    {
        match self.value.to_i128() {
            Some(v) if i16::MIN as i128 <= v && v <= i16::MAX as i128 => Ok(v as i16),
            _ => Err(NonNegativeIntegerOutOfTargetBounds(self)),
        }
    }

    /// This value as an `i32`, when it fits; the value itself when it does not.
    pub fn to_i32(self) -> (r: Result<i32, NonNegativeIntegerOutOfTargetBounds>)
        ensures
            r is Ok <==> i32::MIN <= self@ <= i32::MAX,
            r matches Ok(v) ==> v == self@,
            r matches Err(e) ==> e.0@ == self@,
    {
        match self.value.to_i128() {
            Some(v) if i32::MIN as i128 <= v && v <= i32::MAX as i128 => Ok(v as i32),
            _ => Err(NonNegativeIntegerOutOfTargetBounds(self)),
        }
    }

    /// This value as an `i64`, when it fits; the value itself when it does not.
    pub fn to_i64(self) -> (r: Result<i64, NonNegativeIntegerOutOfTargetBounds>)
        ensures
            r is Ok <==> i64::MIN <= self@ <= i64::MAX,
            r matches Ok(v) ==> v == self@,
            r matches Err(e) ==> e.0@ == self@,
    {
        match self.value.to_i128() {
            Some(v) if i64::MIN as i128 <= v && v <= i64::MAX as i128 => Ok(v as i64),
            _ => Err(NonNegativeIntegerOutOfTargetBounds(self)),
        }
    }

    /// This value as an `isize`, when it fits; the value itself when it does not.
    pub fn to_isize(self) -> (r: Result<isize, NonNegativeIntegerOutOfTargetBounds>)
        ensures
            r is Ok <==> isize::MIN <= self@ <= isize::MAX,
            r matches Ok(v) ==> v == self@,
            r matches Err(e) ==> e.0@ == self@,
    {
        match self.value.to_i128() {
            Some(v) if isize::MIN as i128 <= v && v <= isize::MAX as i128 => Ok(v as isize),
            _ => Err(NonNegativeIntegerOutOfTargetBounds(self)),
        }
    }
}

impl ParseRdf for NonNegativeInteger {
    open spec fn is_literal(s: Seq<char>) -> bool {
        is_non_negative_integer(s)
    }

    open spec fn in_value_space(s: Seq<char>) -> bool {
        true
    }

    open spec fn denotes(s: Seq<char>, v: Self) -> bool {
        v@ == integer_value(s)
    }

    open spec fn lexical_error(s: Seq<char>, e: LexicalError) -> bool {
        restricted_outcome(s, |v: int| v >= 0, Err(e))
    }

    fn parse_rdf(lexical_value: &str) -> (r: Result<Self, ParseRdfError<LexicalError, Integer>>) {
        match NonNegativeInteger::from_str(lexical_value) {
            Ok(v) => Ok(v),
            Err(e) => Err(ParseRdfError::InvalidLexicalForm(e)),
        }
    }
}

impl ParseRdf for PositiveInteger {
    open spec fn is_literal(s: Seq<char>) -> bool {
        is_positive_integer(s)
    }

    open spec fn in_value_space(s: Seq<char>) -> bool {
        true
    }

    open spec fn denotes(s: Seq<char>, v: Self) -> bool {
        v@ == integer_value(s)
    }

    open spec fn lexical_error(s: Seq<char>, e: LexicalError) -> bool {
        restricted_outcome(s, |v: int| v > 0, Err(e))
    }

    fn parse_rdf(lexical_value: &str) -> (r: Result<Self, ParseRdfError<LexicalError, Integer>>) {
        match PositiveInteger::from_str(lexical_value) {
            Ok(v) => Ok(v),
            Err(e) => Err(ParseRdfError::InvalidLexicalForm(e)),
        }
    }
}

impl ParseRdf for UnsignedLong {
    open spec fn is_literal(s: Seq<char>) -> bool {
        is_integer(s)
    }

    open spec fn in_value_space(s: Seq<char>) -> bool {
        u64::MIN <= integer_value(s) <= u64::MAX
    }

    open spec fn denotes(s: Seq<char>, v: Self) -> bool {
        v == integer_value(s)
    }

    open spec fn lexical_error(s: Seq<char>, e: LexicalError) -> bool {
        integer_outcome(s, Err(e))
    }

    fn parse_rdf(lexical_value: &str) -> (r: Result<Self, ParseRdfError<LexicalError, Integer>>) {
        match Integer::from_str(lexical_value) {
            Ok(i) => match i.to_u64() {
                Ok(v) => Ok(v),
                Err(e) => Err(ParseRdfError::InvalidValue(e.0)),
            },
            Err(e) => Err(ParseRdfError::InvalidLexicalForm(e)),
        }
    }
}

impl ParseRdf for UnsignedInt {
    open spec fn is_literal(s: Seq<char>) -> bool {
        is_integer(s)
    }

    open spec fn in_value_space(s: Seq<char>) -> bool {
        u32::MIN <= integer_value(s) <= u32::MAX
    }

    open spec fn denotes(s: Seq<char>, v: Self) -> bool {
        v == integer_value(s)
    }

    open spec fn lexical_error(s: Seq<char>, e: LexicalError) -> bool {
        integer_outcome(s, Err(e))
    }

    fn parse_rdf(lexical_value: &str) -> (r: Result<Self, ParseRdfError<LexicalError, Integer>>) {
        match Integer::from_str(lexical_value) {
            Ok(i) => match i.to_u32() {
                Ok(v) => Ok(v),
                Err(e) => Err(ParseRdfError::InvalidValue(e.0)),
            },
            Err(e) => Err(ParseRdfError::InvalidLexicalForm(e)),
        }
    }
}

impl ParseRdf for UnsignedShort {
    open spec fn is_literal(s: Seq<char>) -> bool {
        is_integer(s)
    }

    open spec fn in_value_space(s: Seq<char>) -> bool {
        u16::MIN <= integer_value(s) <= u16::MAX
    }

    open spec fn denotes(s: Seq<char>, v: Self) -> bool {
        v == integer_value(s)
    }

    open spec fn lexical_error(s: Seq<char>, e: LexicalError) -> bool {
        integer_outcome(s, Err(e))
    }

    fn parse_rdf(lexical_value: &str) -> (r: Result<Self, ParseRdfError<LexicalError, Integer>>) {
        match Integer::from_str(lexical_value) {
            Ok(i) => match i.to_u16() {
                Ok(v) => Ok(v),
                Err(e) => Err(ParseRdfError::InvalidValue(e.0)),
            },
            Err(e) => Err(ParseRdfError::InvalidLexicalForm(e)),
        }
    }
}

impl ParseRdf for UnsignedByte {
    open spec fn is_literal(s: Seq<char>) -> bool {
        is_integer(s)
    }

    open spec fn in_value_space(s: Seq<char>) -> bool {
        u8::MIN <= integer_value(s) <= u8::MAX
    }

    open spec fn denotes(s: Seq<char>, v: Self) -> bool {
        v == integer_value(s)
    }

    open spec fn lexical_error(s: Seq<char>, e: LexicalError) -> bool {
        integer_outcome(s, Err(e))
    }

    fn parse_rdf(lexical_value: &str) -> (r: Result<Self, ParseRdfError<LexicalError, Integer>>) {
        match Integer::from_str(lexical_value) {
            Ok(i) => match i.to_u8() {
                Ok(v) => Ok(v),
                Err(e) => Err(ParseRdfError::InvalidValue(e.0)),
            },
            Err(e) => Err(ParseRdfError::InvalidLexicalForm(e)),
        }
    }
}

/// The integer `v`.
impl From<u8> for NonNegativeInteger {
    fn from(v: u8) -> (r: Self)
        ensures
            r@ == v,
    {
        NonNegativeInteger { value: Integer::from_i128(v as i128) }
    }
}

/// `from` tells its result by the integer it denotes, not as a term.
impl FromSpecImpl<u8> for NonNegativeInteger {
    open spec fn obeys_from_spec() -> bool {
        false
    }

    open spec fn from_spec(v: u8) -> Self {
        arbitrary()
    }
}

/// The integer `v`.
impl From<u16> for NonNegativeInteger {
    fn from(v: u16) -> (r: Self)
        ensures
            r@ == v,
    {
        NonNegativeInteger { value: Integer::from_i128(v as i128) }
    }
}

/// `from` tells its result by the integer it denotes, not as a term.
impl FromSpecImpl<u16> for NonNegativeInteger {
    open spec fn obeys_from_spec() -> bool {
        false
    }

    open spec fn from_spec(v: u16) -> Self {
        arbitrary()
    }
}

/// The integer `v`.
impl From<u32> for NonNegativeInteger {
    fn from(v: u32) -> (r: Self)
        ensures
            r@ == v,
    {
        NonNegativeInteger { value: Integer::from_i128(v as i128) }
    }
}

/// `from` tells its result by the integer it denotes, not as a term.
impl FromSpecImpl<u32> for NonNegativeInteger {
    open spec fn obeys_from_spec() -> bool {
        false
    }

    open spec fn from_spec(v: u32) -> Self {
        arbitrary()
    }
}

/// The integer `v`.
impl From<u64> for NonNegativeInteger {
    fn from(v: u64) -> (r: Self)
        ensures
            r@ == v,
    {
        NonNegativeInteger { value: Integer::from_i128(v as i128) }
    }
}

/// `from` tells its result by the integer it denotes, not as a term.
impl FromSpecImpl<u64> for NonNegativeInteger {
    open spec fn obeys_from_spec() -> bool {
        false
    }

    open spec fn from_spec(v: u64) -> Self {
        arbitrary()
    }
}

/// The integer `v`.
impl From<usize> for NonNegativeInteger {
    fn from(v: usize) -> (r: Self)
        ensures
            r@ == v,
    {
        NonNegativeInteger { value: Integer::from_i128(v as i128) }
    }
}

/// `from` tells its result by the integer it denotes, not as a term.
impl FromSpecImpl<usize> for NonNegativeInteger {
    open spec fn obeys_from_spec() -> bool {
        false
    }

    open spec fn from_spec(v: usize) -> Self {
        arbitrary()
    }
}

} // verus!
