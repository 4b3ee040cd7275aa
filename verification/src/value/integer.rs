//! The value space of `xsd:integer`: the integers, without bound.
use crate::datatype::{
    Datatype, DecimalDatatype, IntDatatype, IntegerDatatype, LongDatatype,
    NonNegativeIntegerDatatype, NonPositiveIntegerDatatype, ShortDatatype,
};
use crate::lexical::LexicalError;
use crate::lexical::integer::{
    canonical_integer, integer_outcome, integer_value, is_integer, lemma_canonical_integer,
    scan_integer, sign_of, IntegerBuf, Sign,
};
use crate::parse::{ParseRdf, ParseRdfError};
use crate::value::XsdDatatype;
use crate::value::big_int::{
    big_add, big_canonical, big_div, big_from_bytes_be, big_from_bytes_le, big_from_i128,
    big_from_signed_bytes_be, big_from_signed_bytes_le, big_is_negative, big_is_positive,
    big_is_zero, big_le, big_mul, big_sub, big_to_bytes_be, big_to_bytes_le, big_to_i128,
    big_to_signed_bytes_be, big_to_signed_bytes_le, magnitude, signed_be, signed_le,
    signed_magnitude, truncated_div, unsigned_be, unsigned_le,
};
use crate::value::non_negative_integer::{non_negative_integer_rung, XsdUnsignedLong};
use vstd::prelude::*;
use vstd::std_specs::convert::FromSpecImpl;

verus! {

/// Why an operation on bounded integers gave no value.
#[derive(Debug, PartialEq, Eq, Hash)]
pub enum ArithmeticError {
    /// The divisor is zero.
    DivisionByZero,
    /// The result, held here, lies outside the bound of the type it was asked in.
    OutOfBounds(Integer),
}

/// An integer of any size.
///
/// It is held as its canonical literal, so that two integers are equal exactly when
/// they hold the same text.
#[derive(Debug, PartialEq, Eq, Hash)]
pub struct Integer {
    digits: String,
}

impl View for Integer {
    type V = int;

    closed spec fn view(&self) -> int {
        integer_value(self.digits@)
    }
}

impl Clone for Integer {
    fn clone(&self) -> (r: Self)
        ensures
            r@ == self@,
    {
        proof {
            use_type_invariant(self);
        }
        Integer { digits: self.digits.clone() }
    }
}

impl Integer {
    /// The text held is the canonical literal of the integer it denotes.
    #[verifier::type_invariant]
    pub closed spec fn wf(&self) -> bool {
        self.digits@ == canonical_integer(integer_value(self.digits@))
    }

    /// The integer that the literal `s` denotes.
    pub(crate) fn from_literal(s: &str) -> (r: Integer)
        requires
            is_integer(s@),
        ensures
            r@ == integer_value(s@),
    {
        let digits = big_canonical(s);
        proof {
            lemma_canonical_integer(integer_value(s@));
        }
        Integer { digits }
    }

    /// Reads an integer from a literal of `xsd:integer`.
    pub fn from_str(s: &str) -> (r: Result<Integer, LexicalError>)
        ensures
            r is Ok <==> is_integer(s@),
            r matches Ok(v) ==> v@ == integer_value(s@),
            r matches Err(e) ==> integer_outcome(s@, Err(e)),
    {
        match scan_integer(s) {
            Ok(_) => Ok(Integer::from_literal(s)),
            Err(e) => Err(e),
        }
    }

    /// The canonical literal of this integer.
    pub fn to_string(&self) -> (r: String)
        ensures
            r@ == canonical_integer(self@),
    {
        proof {
            use_type_invariant(self);
        }
        self.digits.clone()
    }

    /// The integer `v`.
    pub fn from_i128(v: i128) -> (r: Integer)
        ensures
            r@ == v,
    {
        let digits = big_from_i128(v);
        proof {
            lemma_canonical_integer(v as int);
        }
        Integer { digits }
    }

    /// This integer as an `i128`, when it fits.
    pub fn to_i128(&self) -> (r: Option<i128>)
        ensures
            r is Some <==> i128::MIN <= self@ <= i128::MAX,
            r matches Some(v) ==> v == self@,
    {
        proof {
            use_type_invariant(self);
            lemma_canonical_integer(self@);
        }
        big_to_i128(self.digits.as_str())
    }

    /// Zero.
    pub fn zero() -> (r: Integer)
        ensures
            r@ == 0,
    {
        Integer::from_i128(0)
    }

    /// True for zero.
    pub fn is_zero(&self) -> (r: bool)
        ensures
            r == (self@ == 0),
    {
        proof {
            use_type_invariant(self);
            lemma_canonical_integer(self@);
        }
        big_is_zero(self.digits.as_str())
    }

    /// True below zero.
    pub fn is_negative(&self) -> (r: bool)
        ensures
            r == (self@ < 0),
    {
        proof {
            use_type_invariant(self);
            lemma_canonical_integer(self@);
        }
        big_is_negative(self.digits.as_str())
    }

    /// True above zero.
    pub fn is_positive(&self) -> (r: bool)
        ensures
            r == (self@ > 0),
    {
        proof {
            use_type_invariant(self);
            lemma_canonical_integer(self@);
        }
        big_is_positive(self.digits.as_str())
    }

    /// True when this integer is at most `other`.
    pub fn le(&self, other: &Integer) -> (r: bool)
        ensures
            r == (self@ <= other@),
    {
        proof {
            use_type_invariant(self);
            use_type_invariant(other);
            lemma_canonical_integer(self@);
            lemma_canonical_integer(other@);
        }
        big_le(self.digits.as_str(), other.digits.as_str())
    }

    /// True when both are the same integer.
    pub fn eq(&self, other: &Integer) -> (r: bool)
        ensures
            r == (self@ == other@),
    {
        proof {
            use_type_invariant(self);
            use_type_invariant(other);
        }
        self.digits == other.digits
    }

    /// The sum of this integer and `rhs`.
    pub fn add(&self, rhs: &Integer) -> (r: Integer)
        ensures
            r@ == self@ + rhs@,
    {
        proof {
            use_type_invariant(self);
            use_type_invariant(rhs);
            lemma_canonical_integer(self@);
            lemma_canonical_integer(rhs@);
            lemma_canonical_integer(self@ + rhs@);
        }
        Integer { digits: big_add(self.digits.as_str(), rhs.digits.as_str()) }
    }

    /// The difference of this integer and `rhs`.
    pub fn sub(&self, rhs: &Integer) -> (r: Integer)
        ensures
            r@ == self@ - rhs@,
    {
        proof {
            use_type_invariant(self);
            use_type_invariant(rhs);
            lemma_canonical_integer(self@);
            lemma_canonical_integer(rhs@);
            lemma_canonical_integer(self@ - rhs@);
        }
        Integer { digits: big_sub(self.digits.as_str(), rhs.digits.as_str()) }
    }

    /// The product of this integer and `rhs`.
    pub fn mul(&self, rhs: &Integer) -> (r: Integer)
        ensures
            r@ == self@ * rhs@,
    {
        proof {
            use_type_invariant(self);
            use_type_invariant(rhs);
            lemma_canonical_integer(self@);
            lemma_canonical_integer(rhs@);
            lemma_canonical_integer(self@ * rhs@);
        }
        Integer { digits: big_mul(self.digits.as_str(), rhs.digits.as_str()) }
    }

    /// The quotient of this integer by `rhs`, rounded towards zero; `None` when `rhs` is
    /// zero.
    pub fn checked_div(&self, rhs: &Integer) -> (r: Option<Integer>)
        ensures
            r is Some <==> rhs@ != 0,
            r matches Some(q) ==> q@ == truncated_div(self@, rhs@),
    {
        proof {
            use_type_invariant(self);
            use_type_invariant(rhs);
            lemma_canonical_integer(self@);
            lemma_canonical_integer(rhs@);
            lemma_canonical_integer(truncated_div(self@, rhs@));
        }
        if big_is_zero(rhs.digits.as_str()) {
            None
        } else {
            Some(Integer { digits: big_div(self.digits.as_str(), rhs.digits.as_str()) })
        }
    }
}

impl Integer {
    /// The integer with the sign `sign` whose magnitude `bytes` denote in base 256,
    /// most significant first; zero when `sign` is `NoSign`.
    pub fn from_bytes_be(sign: Sign, bytes: &[u8]) -> (r: Integer)
        ensures
            r@ == signed_magnitude(sign, unsigned_be(bytes@)),
    {
        let digits = big_from_bytes_be(sign, bytes);
        proof {
            lemma_canonical_integer(signed_magnitude(sign, unsigned_be(bytes@)));
        }
        Integer { digits }
    }

    /// The integer that `bytes` denote in two's complement, most significant first.
    pub fn from_signed_bytes_be(bytes: &[u8]) -> (r: Integer)
        ensures
            r@ == signed_be(bytes@),
    {
        let digits = big_from_signed_bytes_be(bytes);
        proof {
            lemma_canonical_integer(signed_be(bytes@));
        }
        Integer { digits }
    }

    /// The sign of this integer and the bytes of its magnitude in base 256,
    /// most significant first, without needless zeros: one zero byte for zero.
    pub fn to_bytes_be(&self) -> (r: (Sign, Vec<u8>))
        ensures
            r.0 == sign_of(self@),
            unsigned_be(r.1@) == magnitude(self@),
            r.1@.len() >= 1,
            self@ != 0 ==> r.1@[0] != 0,
            self@ == 0 ==> r.1@ == seq![0u8],
    {
        proof {
            use_type_invariant(self);
            lemma_canonical_integer(self@);
        }
        big_to_bytes_be(self.digits.as_str())
    }

    /// Bytes that denote this integer in two's complement, most significant first.
    pub fn to_signed_bytes_be(&self) -> (r: Vec<u8>)
        ensures
            signed_be(r@) == self@,
            r@.len() >= 1,
    {
        proof {
            use_type_invariant(self);
            lemma_canonical_integer(self@);
        }
        big_to_signed_bytes_be(self.digits.as_str())
    }

    /// The integer with the sign `sign` whose magnitude `bytes` denote in base 256,
    /// least significant first; zero when `sign` is `NoSign`.
    pub fn from_bytes_le(sign: Sign, bytes: &[u8]) -> (r: Integer)
        ensures
            r@ == signed_magnitude(sign, unsigned_le(bytes@)),
    {
        let digits = big_from_bytes_le(sign, bytes);
        proof {
            lemma_canonical_integer(signed_magnitude(sign, unsigned_le(bytes@)));
        }
        Integer { digits }
    }

    /// The integer that `bytes` denote in two's complement, least significant first.
    pub fn from_signed_bytes_le(bytes: &[u8]) -> (r: Integer)
        ensures
            r@ == signed_le(bytes@),
    {
        let digits = big_from_signed_bytes_le(bytes);
        proof {
            lemma_canonical_integer(signed_le(bytes@));
        }
        Integer { digits }
    }

    /// The sign of this integer and the bytes of its magnitude in base 256,
    /// least significant first, without needless zeros: one zero byte for zero.
    pub fn to_bytes_le(&self) -> (r: (Sign, Vec<u8>))
        ensures
            r.0 == sign_of(self@),
            unsigned_le(r.1@) == magnitude(self@),
            r.1@.len() >= 1,
            self@ != 0 ==> r.1@.last() != 0,
            self@ == 0 ==> r.1@ == seq![0u8],
    {
        proof {
            use_type_invariant(self);
            lemma_canonical_integer(self@);
        }
        big_to_bytes_le(self.digits.as_str())
    }

    /// Bytes that denote this integer in two's complement, least significant first.
    pub fn to_signed_bytes_le(&self) -> (r: Vec<u8>)
        ensures
            signed_le(r@) == self@,
            r@.len() >= 1,
    {
        proof {
            use_type_invariant(self);
            lemma_canonical_integer(self@);
        }
        big_to_signed_bytes_le(self.digits.as_str())
    }
}

/// The narrowest datatype derived from `xsd:short` that holds `v`, if there is one: `byte`
/// from -128 to 127.
pub open spec fn short_rung(v: int) -> Option<ShortDatatype> {
    if -0x80 <= v <= 0x7f {
        Some(ShortDatatype::Byte)
    } else {
        None
    }
}

/// The narrowest datatype derived from `xsd:int` that holds `v`, if there is one: `short`
/// from -32768 to 32767, or what is narrower still.
pub open spec fn int_rung(v: int) -> Option<IntDatatype> {
    if -0x8000 <= v <= 0x7fff {
        Some(IntDatatype::Short(short_rung(v)))
    } else {
        None
    }
}

/// The narrowest datatype derived from `xsd:long` that holds `v`, if there is one: `int`
/// from -2147483648 to 2147483647, or what is narrower still.
pub open spec fn long_rung(v: int) -> Option<LongDatatype> {
    if -0x8000_0000 <= v <= 0x7fff_ffff {
        Some(LongDatatype::Int(int_rung(v)))
    } else {
        None
    }
}

/// The narrowest datatype derived from `xsd:integer` that holds `v`.
///
/// Zero and the positive integers are classified on the unsigned ladder, from
/// `unsignedByte` up to `positiveInteger`. The negative integers are classified on the
/// signed ladder, from `byte` down to `long`, and below -9223372036854775808 as
/// `negativeInteger`.
pub open spec fn integer_rung(v: int) -> IntegerDatatype {
    if v >= 0 {
        IntegerDatatype::NonNegativeInteger(Some(non_negative_integer_rung(v)))
    } else if v >= -0x8000_0000_0000_0000 {
        IntegerDatatype::Long(long_rung(v))
    } else {
        IntegerDatatype::NonPositiveInteger(Some(NonPositiveIntegerDatatype::NegativeInteger))
    }
}

impl Integer {
    /// The narrowest datatype derived from `xsd:integer` that holds this integer.
    pub fn integer_type(&self) -> (r: Option<IntegerDatatype>)
        ensures
            r == Some(integer_rung(self@)),
    {
        match self.to_i128() {
            Some(v) if 0 <= v && v <= u64::MAX as i128 => Some(
                IntegerDatatype::NonNegativeInteger(
                    Some(NonNegativeIntegerDatatype::UnsignedLong((v as u64).unsigned_long_type())),
                ),
            ),
            Some(v) if i64::MIN as i128 <= v && v < 0 => Some(
                IntegerDatatype::Long((v as i64).long_type()),
            ),
            _ => if self.is_negative() {
                Some(NonPositiveIntegerDatatype::NegativeInteger.into())
            } else {
                Some(NonNegativeIntegerDatatype::PositiveInteger.into())
            },
        }
    }

    /// The canonical literal of this integer, as a validated literal.
    pub fn lexical_representation(&self) -> (r: IntegerBuf)
        ensures
            r@ == canonical_integer(self@),
    {
        proof {
            lemma_canonical_integer(self@);
        }
        IntegerBuf::new_unchecked(self.to_string())
    }
}

impl IntegerBuf {
    /// The integer that this literal denotes.
    pub fn value(&self) -> (r: Integer)
        ensures
            r@ == integer_value(self@),
    {
        Integer::from_literal(self.as_str())
    }
}

impl XsdDatatype for Integer {
    open spec fn spec_type(&self) -> Datatype {
        integer_rung(self@).datatype()
    }

    fn type_(&self) -> (r: Datatype) {
        match self.integer_type() {
            Some(t) => Datatype::from(t),
            None => Datatype::from(DecimalDatatype::Integer(None)),
        }
    }
}

pub type Long = i64;

pub type Int = i32;

pub type Short = i16;

pub type Byte = i8;

/// An `xsd:long` that tells the narrowest datatype derived from `xsd:long` that holds it.
pub trait XsdLong {
    fn long_type(&self) -> Option<LongDatatype>;
}

impl XsdLong for Long {
    fn long_type(&self) -> (r: Option<LongDatatype>)
        ensures
            r == long_rung(*self as int),
    {
        if -0x80 <= *self && *self <= 0x7f {
            Some(ShortDatatype::Byte.into())
        } else if -0x8000 <= *self && *self <= 0x7fff {
            Some(IntDatatype::Short(None).into())
        } else if -0x8000_0000 <= *self && *self <= 0x7fff_ffff {
            Some(LongDatatype::Int(None))
        } else {
            None
        }
    }
}

impl XsdDatatype for Long {
    open spec fn spec_type(&self) -> Datatype {
        IntegerDatatype::Long(long_rung(*self as int)).datatype()
    }

    fn type_(&self) -> (r: Datatype) {
        Datatype::from(IntegerDatatype::Long(self.long_type()))
    }
}

/// An `xsd:int` that tells the narrowest datatype derived from `xsd:int` that holds it.
pub trait XsdInt {
    fn int_type(&self) -> Option<IntDatatype>;
}

impl XsdInt for Int {
    fn int_type(&self) -> (r: Option<IntDatatype>)
        ensures
            r == int_rung(*self as int),
    {
        if -0x80 <= *self && *self <= 0x7f {
            Some(ShortDatatype::Byte.into())
        } else if -0x8000 <= *self && *self <= 0x7fff {
            Some(IntDatatype::Short(None))
        } else {
            None
        }
    }
}

impl XsdDatatype for Int {
    open spec fn spec_type(&self) -> Datatype {
        LongDatatype::Int(int_rung(*self as int)).datatype()
    }

    fn type_(&self) -> (r: Datatype) {
        Datatype::from(LongDatatype::Int(self.int_type()))
    }
}

/// An `xsd:short` that tells the narrowest datatype derived from `xsd:short` that holds it.
pub trait XsdShort {
    fn short_type(&self) -> Option<ShortDatatype>;
}

impl XsdShort for Short {
    fn short_type(&self) -> (r: Option<ShortDatatype>)
        ensures
            r == short_rung(*self as int),
    {
        if -0x80 <= *self && *self <= 0x7f {
            Some(ShortDatatype::Byte)
        } else {
            None
        }
    }
}

impl XsdDatatype for Short {
    open spec fn spec_type(&self) -> Datatype {
        IntDatatype::Short(short_rung(*self as int)).datatype()
    }

    fn type_(&self) -> (r: Datatype) {
        Datatype::from(IntDatatype::Short(self.short_type()))
    }
}

impl XsdDatatype for Byte {
    open spec fn spec_type(&self) -> Datatype {
        ShortDatatype::Byte.datatype()
    }

    fn type_(&self) -> (r: Datatype) {
        Datatype::from(ShortDatatype::Byte)
    }
}

/// The integer that was refused: it does not fit the machine integer asked for.
#[derive(Debug, PartialEq, Eq, Hash)]
pub struct IntegerOutOfTargetBounds(pub Integer);

impl Integer {
    /// This value as a `u8`, when it fits; the value itself when it does not.
    pub fn to_u8(self) -> (r: Result<u8, IntegerOutOfTargetBounds>)
        ensures
            r is Ok <==> u8::MIN <= self@ <= u8::MAX,
            r matches Ok(v) ==> v == self@,
            r matches Err(e) ==> e.0@ == self@,
    {
        match self.to_i128() {
            Some(v) if u8::MIN as i128 <= v && v <= u8::MAX as i128 => Ok(v as u8),
            _ => Err(IntegerOutOfTargetBounds(self)),
        }
    }

    /// This value as a `u16`, when it fits; the value itself when it does not.
    pub fn to_u16(self) -> (r: Result<u16, IntegerOutOfTargetBounds>)
        ensures
            r is Ok <==> u16::MIN <= self@ <= u16::MAX,
            r matches Ok(v) ==> v == self@,
            r matches Err(e) ==> e.0@ == self@,
    {
        match self.to_i128() {
            Some(v) if u16::MIN as i128 <= v && v <= u16::MAX as i128 => Ok(v as u16),
            _ => Err(IntegerOutOfTargetBounds(self)),
        }
    }

    /// This value as a `u32`, when it fits; the value itself when it does not.
    pub fn to_u32(self) -> (r: Result<u32, IntegerOutOfTargetBounds>)
        ensures
            r is Ok <==> u32::MIN <= self@ <= u32::MAX,
            r matches Ok(v) ==> v == self@,
            r matches Err(e) ==> e.0@ == self@,
    {
        match self.to_i128() {
            Some(v) if u32::MIN as i128 <= v && v <= u32::MAX as i128 => Ok(v as u32),
            _ => Err(IntegerOutOfTargetBounds(self)),
        }
    }

    /// This value as a `u64`, when it fits; the value itself when it does not.
    pub fn to_u64(self) -> (r: Result<u64, IntegerOutOfTargetBounds>)
        ensures
            r is Ok <==> u64::MIN <= self@ <= u64::MAX,
            r matches Ok(v) ==> v == self@,
            r matches Err(e) ==> e.0@ == self@,
    {
        match self.to_i128() {
            Some(v) if u64::MIN as i128 <= v && v <= u64::MAX as i128 => Ok(v as u64),
            _ => Err(IntegerOutOfTargetBounds(self)),
        }
    }

    /// This value as a `usize`, when it fits; the value itself when it does not.
    pub fn to_usize(self) -> (r: Result<usize, IntegerOutOfTargetBounds>)
        ensures
            r is Ok <==> usize::MIN <= self@ <= usize::MAX,
            r matches Ok(v) ==> v == self@,
            r matches Err(e) ==> e.0@ == self@,
    {
        match self.to_i128() {
            Some(v) if usize::MIN as i128 <= v && v <= usize::MAX as i128 => Ok(v as usize),
            _ => Err(IntegerOutOfTargetBounds(self)),
        }
    }

    /// This value as an `i8`, when it fits; the value itself when it does not.
    pub fn to_i8(self) -> (r: Result<i8, IntegerOutOfTargetBounds>)
        ensures
            r is Ok <==> i8::MIN <= self@ <= i8::MAX,
            r matches Ok(v) ==> v == self@,
            r matches Err(e) ==> e.0@ == self@,
    {
        match self.to_i128() {
            Some(v) if i8::MIN as i128 <= v && v <= i8::MAX as i128 => Ok(v as i8),
            _ => Err(IntegerOutOfTargetBounds(self)),
        }
    }

    /// This value as an `i16`, when it fits; the value itself when it does not.
    pub fn to_i16(self) -> (r: Result<i16, IntegerOutOfTargetBounds>)
        ensures
            r is Ok <==> i16::MIN <= self@ <= i16::MAX,
            r matches Ok(v) ==> v == self@,
            r matches Err(e) ==> e.0@ == self@,
    {
        match self.to_i128() {
            Some(v) if i16::MIN as i128 <= v && v <= i16::MAX as i128 => Ok(v as i16),
            _ => Err(IntegerOutOfTargetBounds(self)),
        }
    }

    /// This value as an `i32`, when it fits; the value itself when it does not.
    pub fn to_i32(self) -> (r: Result<i32, IntegerOutOfTargetBounds>)
        ensures
            r is Ok <==> i32::MIN <= self@ <= i32::MAX,
            r matches Ok(v) ==> v == self@,
            r matches Err(e) ==> e.0@ == self@,
    {
        match self.to_i128() {
            Some(v) if i32::MIN as i128 <= v && v <= i32::MAX as i128 => Ok(v as i32),
            _ => Err(IntegerOutOfTargetBounds(self)),
        }
    }

    /// This value as an `i64`, when it fits; the value itself when it does not.
    pub fn to_i64(self) -> (r: Result<i64, IntegerOutOfTargetBounds>)
        ensures
            r is Ok <==> i64::MIN <= self@ <= i64::MAX,
            r matches Ok(v) ==> v == self@,
            r matches Err(e) ==> e.0@ == self@,
    {
        match self.to_i128() {
            Some(v) if i64::MIN as i128 <= v && v <= i64::MAX as i128 => Ok(v as i64),
            _ => Err(IntegerOutOfTargetBounds(self)),
        }
    }

    /// This value as an `isize`, when it fits; the value itself when it does not.
    pub fn to_isize(self) -> (r: Result<isize, IntegerOutOfTargetBounds>)
        ensures
            r is Ok <==> isize::MIN <= self@ <= isize::MAX,
            r matches Ok(v) ==> v == self@,
            r matches Err(e) ==> e.0@ == self@,
    {
        match self.to_i128() {
            Some(v) if isize::MIN as i128 <= v && v <= isize::MAX as i128 => Ok(v as isize),
            _ => Err(IntegerOutOfTargetBounds(self)),
        }
    }
}

impl ParseRdf for Integer {
    open spec fn is_literal(s: Seq<char>) -> bool {
        is_integer(s)
    }

    open spec fn in_value_space(s: Seq<char>) -> bool {
        true
    }

    open spec fn denotes(s: Seq<char>, v: Self) -> bool {
        v@ == integer_value(s)
    }

    open spec fn lexical_error(s: Seq<char>, e: LexicalError) -> bool {
        integer_outcome(s, Err(e))
    }

    fn parse_rdf(lexical_value: &str) -> (r: Result<Self, ParseRdfError<LexicalError, Integer>>) {
        match Integer::from_str(lexical_value) {
            Ok(v) => Ok(v),
            Err(e) => Err(ParseRdfError::InvalidLexicalForm(e)),
        }
    }
}

impl ParseRdf for Long {
    open spec fn is_literal(s: Seq<char>) -> bool {
        is_integer(s)
    }

    open spec fn in_value_space(s: Seq<char>) -> bool {
        i64::MIN <= integer_value(s) <= i64::MAX
    }

    open spec fn denotes(s: Seq<char>, v: Self) -> bool {
        v == integer_value(s)
    }

    open spec fn lexical_error(s: Seq<char>, e: LexicalError) -> bool {
        integer_outcome(s, Err(e))
    }

    fn parse_rdf(lexical_value: &str) -> (r: Result<Self, ParseRdfError<LexicalError, Integer>>) {
        match Integer::from_str(lexical_value) {
            Ok(i) => match i.to_i64() {
                Ok(v) => Ok(v),
                Err(e) => Err(ParseRdfError::InvalidValue(e.0)),
            },
            Err(e) => Err(ParseRdfError::InvalidLexicalForm(e)),
        }
    }
}

impl ParseRdf for Int {
    open spec fn is_literal(s: Seq<char>) -> bool {
        is_integer(s)
    }

    open spec fn in_value_space(s: Seq<char>) -> bool {
        i32::MIN <= integer_value(s) <= i32::MAX
    }

    open spec fn denotes(s: Seq<char>, v: Self) -> bool {
        v == integer_value(s)
    }

    open spec fn lexical_error(s: Seq<char>, e: LexicalError) -> bool {
        integer_outcome(s, Err(e))
    }

    fn parse_rdf(lexical_value: &str) -> (r: Result<Self, ParseRdfError<LexicalError, Integer>>) {
        match Integer::from_str(lexical_value) {
            Ok(i) => match i.to_i32() {
                Ok(v) => Ok(v),
                Err(e) => Err(ParseRdfError::InvalidValue(e.0)),
            },
            Err(e) => Err(ParseRdfError::InvalidLexicalForm(e)),
        }
    }
}

impl ParseRdf for Short {
    open spec fn is_literal(s: Seq<char>) -> bool {
        is_integer(s)
    }

    open spec fn in_value_space(s: Seq<char>) -> bool {
        i16::MIN <= integer_value(s) <= i16::MAX
    }

    open spec fn denotes(s: Seq<char>, v: Self) -> bool {
        v == integer_value(s)
    }

    open spec fn lexical_error(s: Seq<char>, e: LexicalError) -> bool {
        integer_outcome(s, Err(e))
    }

    fn parse_rdf(lexical_value: &str) -> (r: Result<Self, ParseRdfError<LexicalError, Integer>>) {
        match Integer::from_str(lexical_value) {
            Ok(i) => match i.to_i16() {
                Ok(v) => Ok(v),
                Err(e) => Err(ParseRdfError::InvalidValue(e.0)),
            },
            Err(e) => Err(ParseRdfError::InvalidLexicalForm(e)),
        }
    }
}

impl ParseRdf for Byte {
    open spec fn is_literal(s: Seq<char>) -> bool {
        is_integer(s)
    }

    open spec fn in_value_space(s: Seq<char>) -> bool {
        i8::MIN <= integer_value(s) <= i8::MAX
    }

    open spec fn denotes(s: Seq<char>, v: Self) -> bool {
        v == integer_value(s)
    }

    open spec fn lexical_error(s: Seq<char>, e: LexicalError) -> bool {
        integer_outcome(s, Err(e))
    }

    fn parse_rdf(lexical_value: &str) -> (r: Result<Self, ParseRdfError<LexicalError, Integer>>) {
        match Integer::from_str(lexical_value) {
            Ok(i) => match i.to_i8() {
                Ok(v) => Ok(v),
                Err(e) => Err(ParseRdfError::InvalidValue(e.0)),
            },
            Err(e) => Err(ParseRdfError::InvalidLexicalForm(e)),
        }
    }
}

/// The integer `v`.
impl From<u8> for Integer {
    fn from(v: u8) -> (r: Self)
        ensures
            r@ == v,
    {
        Integer::from_i128(v as i128)
    }
}

/// `from` tells its result by the integer it denotes, not as a term.
impl FromSpecImpl<u8> for Integer {
    open spec fn obeys_from_spec() -> bool {
        false
    }

    open spec fn from_spec(v: u8) -> Self {
        arbitrary()
    }
}

/// The integer `v`.
impl From<u16> for Integer {
    fn from(v: u16) -> (r: Self)
        ensures
            r@ == v,
    {
        Integer::from_i128(v as i128)
    }
}

/// `from` tells its result by the integer it denotes, not as a term.
impl FromSpecImpl<u16> for Integer {
    open spec fn obeys_from_spec() -> bool {
        false
    }

    open spec fn from_spec(v: u16) -> Self {
        arbitrary()
    }
}

/// The integer `v`.
impl From<u32> for Integer {
    fn from(v: u32) -> (r: Self)
        ensures
            r@ == v,
    {
        Integer::from_i128(v as i128)
    }
}

/// `from` tells its result by the integer it denotes, not as a term.
impl FromSpecImpl<u32> for Integer {
    open spec fn obeys_from_spec() -> bool {
        false
    }

    open spec fn from_spec(v: u32) -> Self {
        arbitrary()
    }
}

/// The integer `v`.
impl From<u64> for Integer {
    fn from(v: u64) -> (r: Self)
        ensures
            r@ == v,
    {
        Integer::from_i128(v as i128)
    }
}

/// `from` tells its result by the integer it denotes, not as a term.
impl FromSpecImpl<u64> for Integer {
    open spec fn obeys_from_spec() -> bool {
        false
    }

    open spec fn from_spec(v: u64) -> Self {
        arbitrary()
    }
}

/// The integer `v`.
impl From<usize> for Integer {
    fn from(v: usize) -> (r: Self)
        ensures
            r@ == v,
    {
        Integer::from_i128(v as i128)
    }
}

/// `from` tells its result by the integer it denotes, not as a term.
impl FromSpecImpl<usize> for Integer {
    open spec fn obeys_from_spec() -> bool {
        false
    }

    open spec fn from_spec(v: usize) -> Self {
        arbitrary()
    }
}

/// The integer `v`.
impl From<i8> for Integer {
    fn from(v: i8) -> (r: Self)
        ensures
            r@ == v,
    {
        Integer::from_i128(v as i128)
    }
}

/// `from` tells its result by the integer it denotes, not as a term.
impl FromSpecImpl<i8> for Integer {
    open spec fn obeys_from_spec() -> bool {
        false
    }

    open spec fn from_spec(v: i8) -> Self {
        arbitrary()
    }
}

/// The integer `v`.
impl From<i16> for Integer {
    fn from(v: i16) -> (r: Self)
        ensures
            r@ == v,
    {
        Integer::from_i128(v as i128)
    }
}

/// `from` tells its result by the integer it denotes, not as a term.
impl FromSpecImpl<i16> for Integer {
    open spec fn obeys_from_spec() -> bool {
        false
    }

    open spec fn from_spec(v: i16) -> Self {
        arbitrary()
    }
}

/// The integer `v`.
impl From<i32> for Integer {
    fn from(v: i32) -> (r: Self)
        ensures
            r@ == v,
    {
        Integer::from_i128(v as i128)
    }
}

/// `from` tells its result by the integer it denotes, not as a term.
impl FromSpecImpl<i32> for Integer {
    open spec fn obeys_from_spec() -> bool {
        false
    }

    open spec fn from_spec(v: i32) -> Self {
        arbitrary()
    }
}

/// The integer `v`.
impl From<i64> for Integer {
    fn from(v: i64) -> (r: Self)
        ensures
            r@ == v,
    {
        Integer::from_i128(v as i128)
    }
}

/// `from` tells its result by the integer it denotes, not as a term.
impl FromSpecImpl<i64> for Integer {
    open spec fn obeys_from_spec() -> bool {
        false
    }

    open spec fn from_spec(v: i64) -> Self {
        arbitrary()
    }
}

/// The integer `v`.
impl From<isize> for Integer {
    fn from(v: isize) -> (r: Self)
        ensures
            r@ == v,
    {
        Integer::from_i128(v as i128)
    }
}

/// `from` tells its result by the integer it denotes, not as a term.
impl FromSpecImpl<isize> for Integer {
    open spec fn obeys_from_spec() -> bool {
        false
    }

    open spec fn from_spec(v: isize) -> Self {
        arbitrary()
    }
}

} // verus!
