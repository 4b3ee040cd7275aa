//! Arbitrary-precision arithmetic, done by `num_bigint::BigInt`.
//!
//! The library holds an integer as its canonical decimal literal. Each function here hands
//! such literals to `BigInt`, lets it compute, and takes the result back as a canonical
//! literal or a plain value. What is stated of the results is taken on trust from
//! `num_bigint` and `num_traits`.
use crate::lexical::integer::{canonical_integer, integer_value, is_integer, sign_of, Sign};
use num_bigint::BigInt;
use num_traits::{Signed, Zero};
use vstd::prelude::*;

verus! {

/// The quotient of `a` by `b` rounded towards zero, for `b` other than zero.
pub open spec fn truncated_div(a: int, b: int) -> int {
    let q = (if a < 0 { -a } else { a }) / (if b < 0 { -b } else { b });
    if (a < 0) != (b < 0) {
        -q
    } else {
        q
    }
}

/// The number that bytes denote as digits in base 256, most significant first.
pub open spec fn unsigned_be(b: Seq<u8>) -> nat
    decreases b.len(),
{
    if b.len() == 0 {
        0
    } else {
        256 * unsigned_be(b.drop_last()) + b.last() as nat
    }
}

/// The number that bytes denote as digits in base 256, least significant first.
pub open spec fn unsigned_le(b: Seq<u8>) -> nat
    decreases b.len(),
{
    if b.len() == 0 {
        0
    } else {
        b[0] as nat + 256 * unsigned_le(b.skip(1))
    }
}

/// 256 to the power `n`.
pub open spec fn pow256(n: nat) -> nat
    decreases n,
{
    if n == 0 {
        1
    } else {
        256 * pow256((n - 1) as nat)
    }
}

/// The integer that bytes denote in two's complement, most significant byte first. No
/// bytes denote zero.
pub open spec fn signed_be(b: Seq<u8>) -> int {
    if b.len() > 0 && b[0] >= 128 {
        unsigned_be(b) - pow256(b.len())
    } else {
        unsigned_be(b) as int
    }
}

/// The integer that bytes denote in two's complement, least significant byte first. No
/// bytes denote zero.
pub open spec fn signed_le(b: Seq<u8>) -> int {
    if b.len() > 0 && b.last() >= 128 {
        unsigned_le(b) - pow256(b.len())
    } else {
        unsigned_le(b) as int
    }
}

/// The integer with the sign `sign` and the magnitude `m`; zero when the sign is
/// `NoSign`, whatever the magnitude.
pub open spec fn signed_magnitude(sign: Sign, m: nat) -> int {
    match sign {
        Sign::Minus => -(m as int),
        Sign::NoSign => 0,
        Sign::Plus => m as int,
    }
}

/// The magnitude of the integer `v`.
pub open spec fn magnitude(v: int) -> nat {
    if v < 0 {
        (-v) as nat
    } else {
        v as nat
    }
}

/// `BigInt`'s `FromStr` followed by its `Display`: reads an integer literal in base ten,
/// with an optional sign and any number of leading zeros, and writes the integer back
/// without sign or leading zeros, after a `-` when it is negative.
#[verifier::external_body]
pub(crate) fn big_canonical(s: &str) -> (r: String)
    requires
        is_integer(s@),
    ensures
        r@ == canonical_integer(integer_value(s@)),
{
    s.parse::<BigInt>().unwrap().to_string()
}

/// `BigInt`'s `+`: the sum of the two integers.
#[verifier::external_body]
pub(crate) fn big_add(a: &str, b: &str) -> (r: String)
    requires
        is_integer(a@),
        is_integer(b@),
    ensures
        r@ == canonical_integer(integer_value(a@) + integer_value(b@)),
{
    (a.parse::<BigInt>().unwrap() + b.parse::<BigInt>().unwrap()).to_string()
}

/// `BigInt`'s `-`: the difference of the two integers.
#[verifier::external_body]
pub(crate) fn big_sub(a: &str, b: &str) -> (r: String)
    requires
        is_integer(a@),
        is_integer(b@),
    ensures
        r@ == canonical_integer(integer_value(a@) - integer_value(b@)),
{
    (a.parse::<BigInt>().unwrap() - b.parse::<BigInt>().unwrap()).to_string()
}

/// `BigInt`'s `*`: the product of the two integers.
#[verifier::external_body]
pub(crate) fn big_mul(a: &str, b: &str) -> (r: String)
    requires
        is_integer(a@),
        is_integer(b@),
    ensures
        r@ == canonical_integer(integer_value(a@) * integer_value(b@)),
{
    (a.parse::<BigInt>().unwrap() * b.parse::<BigInt>().unwrap()).to_string()
}

/// `BigInt`'s `/`: the quotient rounded towards zero. `BigInt` panics on a zero divisor,
/// which is left out here.
#[verifier::external_body]
pub(crate) fn big_div(a: &str, b: &str) -> (r: String)
    requires
        is_integer(a@),
        is_integer(b@),
        integer_value(b@) != 0,
    ensures
        r@ == canonical_integer(truncated_div(integer_value(a@), integer_value(b@))),
{
    (a.parse::<BigInt>().unwrap() / b.parse::<BigInt>().unwrap()).to_string()
}

/// `BigInt`'s `<=`: the order of the integers.
#[verifier::external_body]
pub(crate) fn big_le(a: &str, b: &str) -> (r: bool)
    requires
        is_integer(a@),
        is_integer(b@),
    ensures
        r == (integer_value(a@) <= integer_value(b@)),
{
    a.parse::<BigInt>().unwrap() <= b.parse::<BigInt>().unwrap()
}

/// `Signed::is_negative` on a `BigInt`: true below zero.
#[verifier::external_body]
pub(crate) fn big_is_negative(a: &str) -> (r: bool)
    requires
        is_integer(a@),
    ensures
        r == (integer_value(a@) < 0),
{
    a.parse::<BigInt>().unwrap().is_negative()
}

/// `Signed::is_positive` on a `BigInt`: true above zero.
#[verifier::external_body]
pub(crate) fn big_is_positive(a: &str) -> (r: bool)
    requires
        is_integer(a@),
    ensures
        r == (integer_value(a@) > 0),
{
    a.parse::<BigInt>().unwrap().is_positive()
}

/// `Zero::is_zero` on a `BigInt`: true for zero.
#[verifier::external_body]
pub(crate) fn big_is_zero(a: &str) -> (r: bool)
    requires
        is_integer(a@),
    ensures
        r == (integer_value(a@) == 0),
{
    a.parse::<BigInt>().unwrap().is_zero()
}

/// `i128::try_from` on a `BigInt`: the integer as an `i128` when it fits, and no value
/// when it does not.
#[verifier::external_body]
pub(crate) fn big_to_i128(a: &str) -> (r: Option<i128>)
    requires
        is_integer(a@),
    ensures
        r is Some <==> i128::MIN <= integer_value(a@) <= i128::MAX,
        r matches Some(v) ==> v == integer_value(a@),
{
    i128::try_from(a.parse::<BigInt>().unwrap()).ok()
}

/// `BigInt::from` on an `i128`: the same integer.
#[verifier::external_body]
pub(crate) fn big_from_i128(v: i128) -> (r: String)
    ensures
        r@ == canonical_integer(v as int),
{
    BigInt::from(v).to_string()
}

/// `BigInt::from_bytes_be`: the integer with the given sign whose magnitude the bytes
/// denote, most significant first; zero when the sign is `NoSign`.
#[verifier::external_body]
pub(crate) fn big_from_bytes_be(sign: Sign, bytes: &[u8]) -> (r: String)
    ensures
        r@ == canonical_integer(signed_magnitude(sign, unsigned_be(bytes@))),
{
    let sign = match sign {
        Sign::Minus => num_bigint::Sign::Minus,
        Sign::NoSign => num_bigint::Sign::NoSign,
        Sign::Plus => num_bigint::Sign::Plus,
    };
    BigInt::from_bytes_be(sign, bytes).to_string()
}

/// `BigInt::from_signed_bytes_be`: the integer that the bytes denote in two's complement,
/// most significant first.
#[verifier::external_body]
pub(crate) fn big_from_signed_bytes_be(bytes: &[u8]) -> (r: String)
    ensures
        r@ == canonical_integer(signed_be(bytes@)),
{
    BigInt::from_signed_bytes_be(bytes).to_string()
}

/// `BigInt::to_bytes_be`: the sign of the integer and the bytes of its magnitude,
/// most significant first. There is at least one byte, and the most significant byte is zero
/// only for the integer zero, which has the one byte zero.
#[verifier::external_body]
pub(crate) fn big_to_bytes_be(a: &str) -> (r: (Sign, Vec<u8>))
    requires
        is_integer(a@),
    ensures
        r.0 == sign_of(integer_value(a@)),
        unsigned_be(r.1@) == magnitude(integer_value(a@)),
        r.1@.len() >= 1,
        integer_value(a@) != 0 ==> r.1@[0] != 0,
        integer_value(a@) == 0 ==> r.1@ == seq![0u8],
{
    let (sign, bytes) = a.parse::<BigInt>().unwrap().to_bytes_be();
    let sign = match sign {
        num_bigint::Sign::Minus => Sign::Minus,
        num_bigint::Sign::NoSign => Sign::NoSign,
        num_bigint::Sign::Plus => Sign::Plus,
    };
    (sign, bytes)
}

/// `BigInt::to_signed_bytes_be`: bytes that denote the integer in two's complement,
/// most significant first. There is at least one byte.
#[verifier::external_body]
pub(crate) fn big_to_signed_bytes_be(a: &str) -> (r: Vec<u8>)
    requires
        is_integer(a@),
    ensures
        signed_be(r@) == integer_value(a@),
        r@.len() >= 1,
{
    a.parse::<BigInt>().unwrap().to_signed_bytes_be()
}

/// `BigInt::from_bytes_le`: the integer with the given sign whose magnitude the bytes
/// denote, least significant first; zero when the sign is `NoSign`.
#[verifier::external_body]
pub(crate) fn big_from_bytes_le(sign: Sign, bytes: &[u8]) -> (r: String)
    ensures
        r@ == canonical_integer(signed_magnitude(sign, unsigned_le(bytes@))),
{
    let sign = match sign {
        Sign::Minus => num_bigint::Sign::Minus,
        Sign::NoSign => num_bigint::Sign::NoSign,
        Sign::Plus => num_bigint::Sign::Plus,
    };
    BigInt::from_bytes_le(sign, bytes).to_string()
}

/// `BigInt::from_signed_bytes_le`: the integer that the bytes denote in two's complement,
/// least significant first.
#[verifier::external_body]
pub(crate) fn big_from_signed_bytes_le(bytes: &[u8]) -> (r: String)
    ensures
        r@ == canonical_integer(signed_le(bytes@)),
{
    BigInt::from_signed_bytes_le(bytes).to_string()
}

/// `BigInt::to_bytes_le`: the sign of the integer and the bytes of its magnitude,
/// least significant first. There is at least one byte, and the most significant byte is zero
/// only for the integer zero, which has the one byte zero.
#[verifier::external_body]
pub(crate) fn big_to_bytes_le(a: &str) -> (r: (Sign, Vec<u8>))
    requires
        is_integer(a@),
    ensures
        r.0 == sign_of(integer_value(a@)),
        unsigned_le(r.1@) == magnitude(integer_value(a@)),
        r.1@.len() >= 1,
        integer_value(a@) != 0 ==> r.1@.last() != 0,
        integer_value(a@) == 0 ==> r.1@ == seq![0u8],
{
    let (sign, bytes) = a.parse::<BigInt>().unwrap().to_bytes_le();
    let sign = match sign {
        num_bigint::Sign::Minus => Sign::Minus,
        num_bigint::Sign::NoSign => Sign::NoSign,
        num_bigint::Sign::Plus => Sign::Plus,
    };
    (sign, bytes)
}

/// `BigInt::to_signed_bytes_le`: bytes that denote the integer in two's complement,
/// least significant first. There is at least one byte.
#[verifier::external_body]
pub(crate) fn big_to_signed_bytes_le(a: &str) -> (r: Vec<u8>)
    requires
        is_integer(a@),
    ensures
        signed_le(r@) == integer_value(a@),
        r@.len() >= 1,
{
    a.parse::<BigInt>().unwrap().to_signed_bytes_le()
}

} // verus!
