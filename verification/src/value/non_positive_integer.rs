//! The value spaces of `xsd:nonPositiveInteger` and of `xsd:negativeInteger`.
use crate::datatype::{Datatype, IntegerDatatype, NonPositiveIntegerDatatype};
use crate::lexical::LexicalError;
use crate::lexical::integer::{
    canonical_integer, integer_value, is_negative_integer, is_non_positive_integer,
    lemma_canonical_integer, restricted_outcome, sign_of, NegativeIntegerBuf, NonPositiveIntegerBuf,
    Sign,
};
use crate::parse::{ParseRdf, ParseRdfError};
use crate::value::XsdDatatype;
use crate::value::big_int::{
    magnitude, signed_be, signed_le, truncated_div, unsigned_be, unsigned_le,
};
use crate::value::integer::{ArithmeticError, Integer};
use vstd::prelude::*;

verus! {

/// An integer that is zero or less.
#[derive(Debug, PartialEq, Eq, Hash)]
pub struct NonPositiveInteger {
    value: Integer,
}

/// The integer that was refused: it is positive.
#[derive(Debug, PartialEq, Eq, Hash)]
pub struct IntegerIsPositive(pub Integer);

impl View for NonPositiveInteger {
    type V = int;

    closed spec fn view(&self) -> int {
        self.value@
    }
}

impl Clone for NonPositiveInteger {
    fn clone(&self) -> (r: Self)
        ensures
            r@ == self@,
    {
        proof {
            use_type_invariant(self);
        }
        NonPositiveInteger { value: self.value.clone() }
    }
}

impl NonPositiveInteger {
    /// What holds of every value of this type.
    #[verifier::type_invariant]
    pub open spec fn wf(&self) -> bool {
        self@ <= 0
    }

    /// Wraps an integer that the caller knows to be zero or less.
    pub(crate) fn new_unchecked(value: Integer) -> (r: Self)
        requires
            value@ <= 0,
        ensures
            r@ == value@,
    {
        NonPositiveInteger { value }
    }

    /// Wraps `value` when it is zero or less, and hands it back when it is not.
    pub fn try_from(value: Integer) -> (r: Result<Self, IntegerIsPositive>)
        ensures
            r is Ok <==> value@ <= 0,
            r matches Ok(v) ==> v@ == value@,
            r matches Err(e) ==> e.0@ == value@,
    {
        if value.is_positive() {
            Err(IntegerIsPositive(value))
        } else {
            Ok(NonPositiveInteger { value })
        }
    }

    /// Reads a value from a literal of `xsd:nonPositiveInteger`.
    pub fn from_str(s: &str) -> (r: Result<Self, LexicalError>)
        ensures
            r is Ok <==> is_non_positive_integer(s@),
            r matches Ok(v) ==> v@ == integer_value(s@),
            r matches Err(e) ==> restricted_outcome(s@, |v: int| v <= 0, Err(e)),
    {
        match NonPositiveIntegerBuf::new(s) {
            Ok(l) => Ok(l.value()),
            Err(e) => Err(e),
        }
    }

    /// This value as an integer without bound.
    pub fn as_integer(&self) -> (r: &Integer)
        ensures
            r@ == self@,
            r@ <= 0,
    {
        proof {
            use_type_invariant(self);
        }
        &self.value
    }

    /// This value as an integer without bound.
    pub fn into_integer(self) -> (r: Integer)
        ensures
            r@ == self@,
            r@ <= 0,
    {
        proof {
            use_type_invariant(&self);
        }
        self.value
    }

    /// The canonical literal of this value.
    pub fn to_string(&self) -> (r: String)
        ensures
            r@ == canonical_integer(self@),
    {
        self.value.to_string()
    }

    /// The canonical literal of this value, as a validated literal.
    pub fn lexical_representation(&self) -> (r: NonPositiveIntegerBuf)
        ensures
            r@ == canonical_integer(self@),
    {
        proof {
            use_type_invariant(self);
            lemma_canonical_integer(self@);
        }
        NonPositiveIntegerBuf::new_unchecked(self.value.to_string())
    }

    /// The sum of this value and `rhs`, when it is zero or less.
    pub fn checked_add(&self, rhs: &Integer) -> (r: Result<Self, ArithmeticError>)
        ensures
            r is Ok <==> self@ + rhs@ <= 0,
            r matches Ok(v) ==> v@ == self@ + rhs@,
            r matches Err(e) ==> e matches ArithmeticError::OutOfBounds(v) && v@ == self@ + rhs@,
    {
        Self::bounded(self.value.add(rhs))
    }

    /// The difference of this value and `rhs`, when it is zero or less.
    pub fn checked_sub(&self, rhs: &Integer) -> (r: Result<Self, ArithmeticError>)
        ensures
            r is Ok <==> self@ - rhs@ <= 0,
            r matches Ok(v) ==> v@ == self@ - rhs@,
            r matches Err(e) ==> e matches ArithmeticError::OutOfBounds(v) && v@ == self@ - rhs@,
    {
        Self::bounded(self.value.sub(rhs))
    }

    /// The product of this value and `rhs`, when it is zero or less.
    pub fn checked_mul(&self, rhs: &Integer) -> (r: Result<Self, ArithmeticError>)
        ensures
            r is Ok <==> self@ * rhs@ <= 0,
            r matches Ok(v) ==> v@ == self@ * rhs@,
            r matches Err(e) ==> e matches ArithmeticError::OutOfBounds(v) && v@ == self@ * rhs@,
    {
        Self::bounded(self.value.mul(rhs))
    }

    /// The quotient of this value by `rhs`, rounded towards zero, when `rhs` is not zero
    /// and the quotient is zero or less.
    pub fn checked_div(&self, rhs: &Integer) -> (r: Result<Self, ArithmeticError>)
        ensures
            r is Ok <==> rhs@ != 0 && truncated_div(self@, rhs@) <= 0,
            r matches Ok(v) ==> v@ == truncated_div(self@, rhs@),
            r matches Err(e) ==> if rhs@ == 0 {
                e is DivisionByZero
            } else {
                e matches ArithmeticError::OutOfBounds(v) && v@ == truncated_div(self@, rhs@)
            },
    {
        match self.value.checked_div(rhs) {
            Some(q) => Self::bounded(q),
            None => Err(ArithmeticError::DivisionByZero),
        }
    }

    /// Wraps the result of an operation when it is zero or less.
    fn bounded(value: Integer) -> (r: Result<Self, ArithmeticError>)
        ensures
            r is Ok <==> value@ <= 0,
            r matches Ok(v) ==> v@ == value@,
            r matches Err(e) ==> e matches ArithmeticError::OutOfBounds(v) && v@ == value@,
    {
        if value.is_positive() {
            Err(ArithmeticError::OutOfBounds(value))
        } else {
            Ok(NonPositiveInteger { value })
        }
    }
}

impl NonPositiveIntegerBuf {
    /// The value that this literal denotes.
    pub fn value(&self) -> (r: NonPositiveInteger)
        ensures
            r@ == integer_value(self@),
    {
        let s = self.as_str();
        NonPositiveInteger::new_unchecked(Integer::from_literal(s))
    }
}

/// An integer that is minus one or less.
#[derive(Debug, PartialEq, Eq, Hash)]
pub struct NegativeInteger {
    value: Integer,
}

/// The integer that was refused: it is zero or positive.
#[derive(Debug, PartialEq, Eq, Hash)]
pub struct IntegerIsNotNegative(pub Integer);

impl View for NegativeInteger {
    type V = int;

    closed spec fn view(&self) -> int {
        self.value@
    }
}

impl Clone for NegativeInteger {
    fn clone(&self) -> (r: Self)
        ensures
            r@ == self@,
    {
        proof {
            use_type_invariant(self);
        }
        NegativeInteger { value: self.value.clone() }
    }
}

impl NegativeInteger {
    /// What holds of every value of this type.
    #[verifier::type_invariant]
    pub open spec fn wf(&self) -> bool {
        self@ < 0
    }

    /// Wraps an integer that the caller knows to be minus one or less.
    pub(crate) fn new_unchecked(value: Integer) -> (r: Self)
        requires
            value@ < 0,
        ensures
            r@ == value@,
    {
        NegativeInteger { value }
    }

    /// Wraps `value` when it is minus one or less, and hands it back when it is not.
    pub fn try_from(value: Integer) -> (r: Result<Self, IntegerIsNotNegative>)
        ensures
            r is Ok <==> value@ < 0,
            r matches Ok(v) ==> v@ == value@,
            r matches Err(e) ==> e.0@ == value@,
    {
        if !value.is_negative() {
            Err(IntegerIsNotNegative(value))
        } else {
            Ok(NegativeInteger { value })
        }
    }

    /// Reads a value from a literal of `xsd:negativeInteger`.
    pub fn from_str(s: &str) -> (r: Result<Self, LexicalError>)
        ensures
            r is Ok <==> is_negative_integer(s@),
            r matches Ok(v) ==> v@ == integer_value(s@),
            r matches Err(e) ==> restricted_outcome(s@, |v: int| v < 0, Err(e)),
    {
        match NegativeIntegerBuf::new(s) {
            Ok(l) => Ok(l.value()),
            Err(e) => Err(e),
        }
    }

    /// This value as an integer without bound.
    pub fn as_integer(&self) -> (r: &Integer)
        ensures
            r@ == self@,
            r@ < 0,
    {
        proof {
            use_type_invariant(self);
        }
        &self.value
    }

    /// This value as an integer without bound.
    pub fn into_integer(self) -> (r: Integer)
        ensures
            r@ == self@,
            r@ < 0,
    {
        proof {
            use_type_invariant(&self);
        }
        self.value
    }

    /// The canonical literal of this value.
    pub fn to_string(&self) -> (r: String)
        ensures
            r@ == canonical_integer(self@),
    {
        self.value.to_string()
    }

    /// The canonical literal of this value, as a validated literal.
    pub fn lexical_representation(&self) -> (r: NegativeIntegerBuf)
        ensures
            r@ == canonical_integer(self@),
    {
        proof {
            use_type_invariant(self);
            lemma_canonical_integer(self@);
        }
        NegativeIntegerBuf::new_unchecked(self.value.to_string())
    }

    /// The sum of this value and `rhs`, when it is minus one or less.
    pub fn checked_add(&self, rhs: &Integer) -> (r: Result<Self, ArithmeticError>)
        ensures
            r is Ok <==> self@ + rhs@ < 0,
            r matches Ok(v) ==> v@ == self@ + rhs@,
            r matches Err(e) ==> e matches ArithmeticError::OutOfBounds(v) && v@ == self@ + rhs@,
    {
        Self::bounded(self.value.add(rhs))
    }

    /// The difference of this value and `rhs`, when it is minus one or less.
    pub fn checked_sub(&self, rhs: &Integer) -> (r: Result<Self, ArithmeticError>)
        ensures
            r is Ok <==> self@ - rhs@ < 0,
            r matches Ok(v) ==> v@ == self@ - rhs@,
            r matches Err(e) ==> e matches ArithmeticError::OutOfBounds(v) && v@ == self@ - rhs@,
    {
        Self::bounded(self.value.sub(rhs))
    }

    /// The product of this value and `rhs`, when it is minus one or less.
    pub fn checked_mul(&self, rhs: &Integer) -> (r: Result<Self, ArithmeticError>)
        ensures
            r is Ok <==> self@ * rhs@ < 0,
            r matches Ok(v) ==> v@ == self@ * rhs@,
            r matches Err(e) ==> e matches ArithmeticError::OutOfBounds(v) && v@ == self@ * rhs@,
    {
        Self::bounded(self.value.mul(rhs))
    }

    /// The quotient of this value by `rhs`, rounded towards zero, when `rhs` is not zero
    /// and the quotient is minus one or less.
    pub fn checked_div(&self, rhs: &Integer) -> (r: Result<Self, ArithmeticError>)
        ensures
            r is Ok <==> rhs@ != 0 && truncated_div(self@, rhs@) < 0,
            r matches Ok(v) ==> v@ == truncated_div(self@, rhs@),
            r matches Err(e) ==> if rhs@ == 0 {
                e is DivisionByZero
            } else {
                e matches ArithmeticError::OutOfBounds(v) && v@ == truncated_div(self@, rhs@)
            },
    {
        match self.value.checked_div(rhs) {
            Some(q) => Self::bounded(q),
            None => Err(ArithmeticError::DivisionByZero),
        }
    }

    /// Wraps the result of an operation when it is minus one or less.
    fn bounded(value: Integer) -> (r: Result<Self, ArithmeticError>)
        ensures
            r is Ok <==> value@ < 0,
            r matches Ok(v) ==> v@ == value@,
            r matches Err(e) ==> e matches ArithmeticError::OutOfBounds(v) && v@ == value@,
    {
        if !value.is_negative() {
            Err(ArithmeticError::OutOfBounds(value))
        } else {
            Ok(NegativeInteger { value })
        }
    }
}

impl NegativeIntegerBuf {
    /// The value that this literal denotes.
    pub fn value(&self) -> (r: NegativeInteger)
        ensures
            r@ == integer_value(self@),
    {
        let s = self.as_str();
        NegativeInteger::new_unchecked(Integer::from_literal(s))
    }
}

/// The datatype derived from `xsd:nonPositiveInteger` that holds `v`, for `v` zero or
/// less: `negativeInteger` below zero, and none for zero.
pub open spec fn non_positive_integer_rung(v: int) -> Option<NonPositiveIntegerDatatype> {
    if v < 0 {
        Some(NonPositiveIntegerDatatype::NegativeInteger)
    } else {
        None
    }
}

impl NonPositiveInteger {
    /// Zero.
    pub fn zero() -> (r: Self)
        ensures
            r@ == 0,
    {
        NonPositiveInteger { value: Integer::zero() }
    }

    /// True for zero.
    pub fn is_zero(&self) -> (r: bool)
        ensures
            r == (self@ == 0),
    {
        self.value.is_zero()
    }

    /// The datatype derived from `xsd:nonPositiveInteger` that holds this value, if there
    /// is one.
    pub fn non_positive_integer_type(&self) -> (r: Option<NonPositiveIntegerDatatype>)
        ensures
            r == non_positive_integer_rung(self@),
    {
        if self.value.is_negative() {
            Some(NonPositiveIntegerDatatype::NegativeInteger)
        } else {
            None
        }
    }
}

impl XsdDatatype for NonPositiveInteger {
    open spec fn spec_type(&self) -> Datatype {
        IntegerDatatype::NonPositiveInteger(non_positive_integer_rung(self@)).datatype()
    }

    fn type_(&self) -> (r: Datatype) {
        Datatype::from(IntegerDatatype::NonPositiveInteger(self.non_positive_integer_type()))
    }
}

impl NegativeInteger {
    /// True for minus one.
    pub fn is_minus_one(&self) -> (r: bool)
        ensures
            r == (self@ == -1),
    {
        match self.value.to_i128() {
            Some(v) => v == -1,
            None => false,
        }
    }

    /// This value as an integer that is zero or less.
    pub fn into_non_positive_integer(self) -> (r: NonPositiveInteger)
        ensures
            r@ == self@,
    {
        proof {
            use_type_invariant(&self);
        }
        NonPositiveInteger { value: self.value }
    }
}

impl XsdDatatype for NegativeInteger {
    open spec fn spec_type(&self) -> Datatype {
        NonPositiveIntegerDatatype::NegativeInteger.datatype()
    }

    fn type_(&self) -> (r: Datatype) {
        Datatype::from(NonPositiveIntegerDatatype::NegativeInteger)
    }
}

impl NonPositiveInteger {
    /// The value whose magnitude `bytes` denote in base 256, most significant first: that
    /// magnitude, negated.
    pub fn from_bytes_be(bytes: &[u8]) -> (r: Self)
        ensures
            r@ == -(unsigned_be(bytes@) as int),
    {
        NonPositiveInteger { value: Integer::from_bytes_be(Sign::Minus, bytes) }
    }

    /// The value that `bytes` denote in two's complement, most significant first, when it is
    /// zero or less.
    pub fn from_signed_bytes_be(bytes: &[u8]) -> (r: Result<Self, IntegerIsPositive>)
        ensures
            r is Ok <==> signed_be(bytes@) <= 0,
            r matches Ok(v) ==> v@ == signed_be(bytes@),
            r matches Err(e) ==> e.0@ == signed_be(bytes@),
    {
        NonPositiveInteger::try_from(Integer::from_signed_bytes_be(bytes))
    }

    /// The value whose magnitude `bytes` denote in base 256, least significant first: that
    /// magnitude, negated.
    pub fn from_bytes_le(bytes: &[u8]) -> (r: Self)
        ensures
            r@ == -(unsigned_le(bytes@) as int),
    {
        NonPositiveInteger { value: Integer::from_bytes_le(Sign::Minus, bytes) }
    }

    /// The value that `bytes` denote in two's complement, least significant first, when it is
    /// zero or less.
    pub fn from_signed_bytes_le(bytes: &[u8]) -> (r: Result<Self, IntegerIsPositive>)
        ensures
            r is Ok <==> signed_le(bytes@) <= 0,
            r matches Ok(v) ==> v@ == signed_le(bytes@),
            r matches Err(e) ==> e.0@ == signed_le(bytes@),
    {
        NonPositiveInteger::try_from(Integer::from_signed_bytes_le(bytes))
    }

    /// The sign of this value and the bytes of its magnitude in base 256,
    /// most significant first, without needless zeros: one zero byte for zero.
    pub fn to_bytes_be(&self) -> (r: (Sign, Vec<u8>))
        ensures
            r.0 == sign_of(self@),
            unsigned_be(r.1@) == magnitude(self@),
            r.1@.len() >= 1,
            self@ != 0 ==> r.1@[0] != 0,
            self@ == 0 ==> r.1@ == seq![0u8],
    {
        self.value.to_bytes_be()
    }

    /// Bytes that denote this value in two's complement, most significant first.
    pub fn to_signed_bytes_be(&self) -> (r: Vec<u8>)
        ensures
            signed_be(r@) == self@,
            r@.len() >= 1,
    {
        self.value.to_signed_bytes_be()
    }

    /// The sign of this value and the bytes of its magnitude in base 256,
    /// least significant first, without needless zeros: one zero byte for zero.
    pub fn to_bytes_le(&self) -> (r: (Sign, Vec<u8>))
        ensures
            r.0 == sign_of(self@),
            unsigned_le(r.1@) == magnitude(self@),
            r.1@.len() >= 1,
            self@ != 0 ==> r.1@.last() != 0,
            self@ == 0 ==> r.1@ == seq![0u8],
    {
        self.value.to_bytes_le()
    }

    /// Bytes that denote this value in two's complement, least significant first.
    pub fn to_signed_bytes_le(&self) -> (r: Vec<u8>)
        ensures
            signed_le(r@) == self@,
            r@.len() >= 1,
    {
        self.value.to_signed_bytes_le()
    }
}

impl NegativeInteger {
    /// The value whose magnitude `bytes` denote in base 256, most significant first, when
    /// that magnitude is not zero: the magnitude, negated.
    pub fn from_bytes_be(bytes: &[u8]) -> (r: Result<Self, IntegerIsNotNegative>)
        ensures
            r is Ok <==> unsigned_be(bytes@) > 0,
            r matches Ok(v) ==> v@ == -(unsigned_be(bytes@) as int),
            r matches Err(e) ==> e.0@ == 0,
    {
        NegativeInteger::try_from(Integer::from_bytes_be(Sign::Minus, bytes))
    }

    /// The value that `bytes` denote in two's complement, most significant first, when it is
    /// minus one or less.
    pub fn from_signed_bytes_be(bytes: &[u8]) -> (r: Result<Self, IntegerIsNotNegative>)
        ensures
            r is Ok <==> signed_be(bytes@) < 0,
            r matches Ok(v) ==> v@ == signed_be(bytes@),
            r matches Err(e) ==> e.0@ == signed_be(bytes@),
    {
        NegativeInteger::try_from(Integer::from_signed_bytes_be(bytes))
    }

    /// The value whose magnitude `bytes` denote in base 256, least significant first, when
    /// that magnitude is not zero: the magnitude, negated.
    pub fn from_bytes_le(bytes: &[u8]) -> (r: Result<Self, IntegerIsNotNegative>)
        ensures
            r is Ok <==> unsigned_le(bytes@) > 0,
            r matches Ok(v) ==> v@ == -(unsigned_le(bytes@) as int),
            r matches Err(e) ==> e.0@ == 0,
    {
        NegativeInteger::try_from(Integer::from_bytes_le(Sign::Minus, bytes))
    }

    /// The value that `bytes` denote in two's complement, least significant first, when it is
    /// minus one or less.
    pub fn from_signed_bytes_le(bytes: &[u8]) -> (r: Result<Self, IntegerIsNotNegative>)
        ensures
            r is Ok <==> signed_le(bytes@) < 0,
            r matches Ok(v) ==> v@ == signed_le(bytes@),
            r matches Err(e) ==> e.0@ == signed_le(bytes@),
    {
        NegativeInteger::try_from(Integer::from_signed_bytes_le(bytes))
    }

    /// The sign of this value and the bytes of its magnitude in base 256,
    /// most significant first, without needless zeros: one zero byte for zero.
    pub fn to_bytes_be(&self) -> (r: (Sign, Vec<u8>))
        ensures
            r.0 == sign_of(self@),
            unsigned_be(r.1@) == magnitude(self@),
            r.1@.len() >= 1,
            self@ != 0 ==> r.1@[0] != 0,
            self@ == 0 ==> r.1@ == seq![0u8],
    {
        self.value.to_bytes_be()
    }

    /// Bytes that denote this value in two's complement, most significant first.
    pub fn to_signed_bytes_be(&self) -> (r: Vec<u8>)
        ensures
            signed_be(r@) == self@,
            r@.len() >= 1,
    {
        self.value.to_signed_bytes_be()
    }

    /// The sign of this value and the bytes of its magnitude in base 256,
    /// least significant first, without needless zeros: one zero byte for zero.
    pub fn to_bytes_le(&self) -> (r: (Sign, Vec<u8>))
        ensures
            r.0 == sign_of(self@),
            unsigned_le(r.1@) == magnitude(self@),
            r.1@.len() >= 1,
            self@ != 0 ==> r.1@.last() != 0,
            self@ == 0 ==> r.1@ == seq![0u8],
    {
        self.value.to_bytes_le()
    }

    /// Bytes that denote this value in two's complement, least significant first.
    pub fn to_signed_bytes_le(&self) -> (r: Vec<u8>)
        ensures
            signed_le(r@) == self@,
            r@.len() >= 1,
    {
        self.value.to_signed_bytes_le()
    }
}

/// The value that was refused: it does not fit the machine integer asked for.
#[derive(Debug, PartialEq, Eq, Hash)]
pub struct NonPositiveIntegerOutOfTargetBounds(pub NonPositiveInteger);

impl NonPositiveInteger {
    /// This value as a `u8`, when it fits; the value itself when it does not.
    pub fn to_u8(self) -> (r: Result<u8, NonPositiveIntegerOutOfTargetBounds>)
        ensures
            r is Ok <==> u8::MIN <= self@ <= u8::MAX,
            r matches Ok(v) ==> v == self@,
            r matches Err(e) ==> e.0@ == self@,
    {
        match self.value.to_i128() {
            Some(v) if u8::MIN as i128 <= v && v <= u8::MAX as i128 => Ok(v as u8),
            _ => Err(NonPositiveIntegerOutOfTargetBounds(self)),
        }
    }

    /// This value as a `u16`, when it fits; the value itself when it does not.
    pub fn to_u16(self) -> (r: Result<u16, NonPositiveIntegerOutOfTargetBounds>)
        ensures
            r is Ok <==> u16::MIN <= self@ <= u16::MAX,
            r matches Ok(v) ==> v == self@,
            r matches Err(e) ==> e.0@ == self@,
    {
        match self.value.to_i128() {
            Some(v) if u16::MIN as i128 <= v && v <= u16::MAX as i128 => Ok(v as u16),
            _ => Err(NonPositiveIntegerOutOfTargetBounds(self)),
        }
    }

    /// This value as a `u32`, when it fits; the value itself when it does not.
    pub fn to_u32(self) -> (r: Result<u32, NonPositiveIntegerOutOfTargetBounds>)
        ensures
            r is Ok <==> u32::MIN <= self@ <= u32::MAX,
            r matches Ok(v) ==> v == self@,
            r matches Err(e) ==> e.0@ == self@,
    {
        match self.value.to_i128() {
            Some(v) if u32::MIN as i128 <= v && v <= u32::MAX as i128 => Ok(v as u32),
            _ => Err(NonPositiveIntegerOutOfTargetBounds(self)),
        }
    }

    /// This value as a `u64`, when it fits; the value itself when it does not.
    pub fn to_u64(self) -> (r: Result<u64, NonPositiveIntegerOutOfTargetBounds>)
        ensures
            r is Ok <==> u64::MIN <= self@ <= u64::MAX,
            r matches Ok(v) ==> v == self@,
            r matches Err(e) ==> e.0@ == self@,
    {
        match self.value.to_i128() {
            Some(v) if u64::MIN as i128 <= v && v <= u64::MAX as i128 => Ok(v as u64),
            _ => Err(NonPositiveIntegerOutOfTargetBounds(self)),
        }
    }

    /// This value as a `usize`, when it fits; the value itself when it does not.
    pub fn to_usize(self) -> (r: Result<usize, NonPositiveIntegerOutOfTargetBounds>)
        ensures
            r is Ok <==> usize::MIN <= self@ <= usize::MAX,
            r matches Ok(v) ==> v == self@,
            r matches Err(e) ==> e.0@ == self@,
    {
        match self.value.to_i128() {
            Some(v) if usize::MIN as i128 <= v && v <= usize::MAX as i128 => Ok(v as usize),
            _ => Err(NonPositiveIntegerOutOfTargetBounds(self)),
        }
    }

    /// This value as an `i8`, when it fits; the value itself when it does not.
    pub fn to_i8(self) -> (r: Result<i8, NonPositiveIntegerOutOfTargetBounds>)
        ensures
            r is Ok <==> i8::MIN <= self@ <= i8::MAX,
            r matches Ok(v) ==> v == self@,
            r matches Err(e) ==> e.0@ == self@,
    {
        match self.value.to_i128() {
            Some(v) if i8::MIN as i128 <= v && v <= i8::MAX as i128 => Ok(v as i8),
            _ => Err(NonPositiveIntegerOutOfTargetBounds(self)),
        }
    }

    /// This value as an `i16`, when it fits; the value itself when it does not.
    pub fn to_i16(self) -> (r: Result<i16, NonPositiveIntegerOutOfTargetBounds>)
        ensures
            r is Ok <==> i16::MIN <= self@ <= i16::MAX,
            r matches Ok(v) ==> v == self@,
            r matches Err(e) ==> e.0@ == self@,
    {
        match self.value.to_i128() {
            Some(v) if i16::MIN as i128 <= v && v <= i16::MAX as i128 => Ok(v as i16),
            _ => Err(NonPositiveIntegerOutOfTargetBounds(self)),
        }
    }

    /// This value as an `i32`, when it fits; the value itself when it does not.
    pub fn to_i32(self) -> (r: Result<i32, NonPositiveIntegerOutOfTargetBounds>)
        ensures
            r is Ok <==> i32::MIN <= self@ <= i32::MAX,
            r matches Ok(v) ==> v == self@,
            r matches Err(e) ==> e.0@ == self@,
    {
        match self.value.to_i128() {
            Some(v) if i32::MIN as i128 <= v && v <= i32::MAX as i128 => Ok(v as i32),
            _ => Err(NonPositiveIntegerOutOfTargetBounds(self)),
        }
    }

    /// This value as an `i64`, when it fits; the value itself when it does not.
    pub fn to_i64(self) -> (r: Result<i64, NonPositiveIntegerOutOfTargetBounds>)
        ensures
            r is Ok <==> i64::MIN <= self@ <= i64::MAX,
            r matches Ok(v) ==> v == self@,
            r matches Err(e) ==> e.0@ == self@,
    {
        match self.value.to_i128() {
            Some(v) if i64::MIN as i128 <= v && v <= i64::MAX as i128 => Ok(v as i64),
            _ => Err(NonPositiveIntegerOutOfTargetBounds(self)),
        }
    }

    /// This value as an `isize`, when it fits; the value itself when it does not.
    pub fn to_isize(self) -> (r: Result<isize, NonPositiveIntegerOutOfTargetBounds>)
        ensures
            r is Ok <==> isize::MIN <= self@ <= isize::MAX,
            r matches Ok(v) ==> v == self@,
            r matches Err(e) ==> e.0@ == self@,
    {
        match self.value.to_i128() {
            Some(v) if isize::MIN as i128 <= v && v <= isize::MAX as i128 => Ok(v as isize),
            _ => Err(NonPositiveIntegerOutOfTargetBounds(self)),
        }
    }
}

impl ParseRdf for NonPositiveInteger {
    open spec fn is_literal(s: Seq<char>) -> bool {
        is_non_positive_integer(s)
    }

    open spec fn in_value_space(s: Seq<char>) -> bool {
        true
    }

    open spec fn denotes(s: Seq<char>, v: Self) -> bool {
        v@ == integer_value(s)
    }

    open spec fn lexical_error(s: Seq<char>, e: LexicalError) -> bool {
        restricted_outcome(s, |v: int| v <= 0, Err(e))
    }

    fn parse_rdf(lexical_value: &str) -> (r: Result<Self, ParseRdfError<LexicalError, Integer>>) {
        match NonPositiveInteger::from_str(lexical_value) {
            Ok(v) => Ok(v),
            Err(e) => Err(ParseRdfError::InvalidLexicalForm(e)),
        }
    }
}

impl ParseRdf for NegativeInteger {
    open spec fn is_literal(s: Seq<char>) -> bool {
        is_negative_integer(s)
    }

    open spec fn in_value_space(s: Seq<char>) -> bool {
        true
    }

    open spec fn denotes(s: Seq<char>, v: Self) -> bool {
        v@ == integer_value(s)
    }

    open spec fn lexical_error(s: Seq<char>, e: LexicalError) -> bool {
        restricted_outcome(s, |v: int| v < 0, Err(e))
    }

    fn parse_rdf(lexical_value: &str) -> (r: Result<Self, ParseRdfError<LexicalError, Integer>>) {
        match NegativeInteger::from_str(lexical_value) {
            Ok(v) => Ok(v),
            Err(e) => Err(ParseRdfError::InvalidLexicalForm(e)),
        }
    }
}

} // verus!
