//! The lexical space of `xsd:hexBinary`: hexadecimal digits, two for each byte.
use crate::lexical::{scan_outcome, LexicalError};
use crate::lexical::integer::is_digit;
use crate::text::{
    ascii_bytes, byte_char, bytes_spell, is_ascii_text, DIGIT_0, DIGIT_9, LOWER_A, LOWER_F, UPPER_A,
    UPPER_F,
};
use vstd::prelude::*;

verus! {

/// True for the hexadecimal digits, in either case.
pub open spec fn is_hex_digit(c: char) -> bool {
    is_digit(c) || ('a' <= c && c <= 'f') || ('A' <= c && c <= 'F')
}

/// The number that a hexadecimal digit stands for.
pub open spec fn hex_digit_value(c: char) -> nat {
    if is_digit(c) {
        (c as int - '0' as int) as nat
    } else if 'a' <= c && c <= 'f' {
        (c as int - 'a' as int + 10) as nat
    } else {
        (c as int - 'A' as int + 10) as nat
    }
}

/// The upper-case hexadecimal digit that stands for `d`, for `d` below sixteen.
pub open spec fn hex_digit_char(d: nat) -> char {
    if d < 10 {
        ((d + DIGIT_0) as u8) as char
    } else {
        ((d - 10 + UPPER_A) as u8) as char
    }
}

/// The texts that start an `xsd:hexBinary` literal: hexadecimal digits only.
pub open spec fn hex_binary_prefix(s: Seq<char>) -> bool {
    forall|i: int| 0 <= i < s.len() ==> is_hex_digit(#[trigger] s[i])
}

/// The lexical space of `xsd:hexBinary`: an even number of hexadecimal digits.
pub open spec fn is_hex_binary(s: Seq<char>) -> bool {
    s.len() % 2 == 0 && hex_binary_prefix(s)
}

/// What the validator of `xsd:hexBinary` answers on the text `s`.
pub open spec fn hex_binary_outcome(s: Seq<char>, r: Result<(), LexicalError>) -> bool {
    scan_outcome(
        s,
        |t: Seq<char>| is_hex_binary(t),
        |t: Seq<char>| hex_binary_prefix(t),
        r,
    )
}

/// The byte that the two digits at `2 * k` and `2 * k + 1` of `s` denote.
pub open spec fn hex_byte_at(s: Seq<char>, k: int) -> u8 {
    (16 * hex_digit_value(s[2 * k]) + hex_digit_value(s[2 * k + 1])) as u8
}

/// The bytes that an `xsd:hexBinary` literal denotes.
pub open spec fn hex_binary_value(s: Seq<char>) -> Seq<u8> {
    Seq::new(s.len() / 2, |k: int| hex_byte_at(s, k))
}

/// The canonical literal of a sequence of bytes: two upper-case digits for each byte, the
/// high half first.
pub open spec fn canonical_hex_binary(b: Seq<u8>) -> Seq<char> {
    Seq::new(
        2 * b.len(),
        |i: int|
            if i % 2 == 0 {
                hex_digit_char((b[i / 2] / 16) as nat)
            } else {
                hex_digit_char((b[i / 2] % 16) as nat)
            },
    )
}

/// An upper-case hexadecimal digit is a hexadecimal digit and stands for its number.
pub proof fn lemma_hex_digit_char(d: nat)
    requires
        d < 16,
    ensures
        is_hex_digit(hex_digit_char(d)),
        hex_digit_value(hex_digit_char(d)) == d,
        hex_digit_char(d) <= '\u{7f}',
{
}

/// The canonical literal of a sequence of bytes is a literal and denotes those bytes.
pub proof fn lemma_canonical_hex_binary(b: Seq<u8>)
    ensures
        is_hex_binary(canonical_hex_binary(b)),
        hex_binary_value(canonical_hex_binary(b)) == b,
{
    let s = canonical_hex_binary(b);
    assert forall|i: int| 0 <= i < s.len() implies is_hex_digit(#[trigger] s[i]) by {
        lemma_hex_digit_char((b[i / 2] / 16) as nat);
        lemma_hex_digit_char((b[i / 2] % 16) as nat);
    }
    assert forall|k: int| 0 <= k < b.len() implies hex_byte_at(s, k) == b[k] by {
        lemma_hex_digit_char((b[k] / 16) as nat);
        lemma_hex_digit_char((b[k] % 16) as nat);
        assert((2 * k) / 2 == k);
        assert((2 * k + 1) / 2 == k);
    }
    assert(hex_binary_value(s) =~= b);
}

/// The number that the ASCII byte `c` stands for as a hexadecimal digit, if it is one.
fn hex_digit_of(c: u8) -> (r: Option<u8>)
    requires
        c < 128,
    ensures
        r is Some <==> is_hex_digit(byte_char(c)),
        r matches Some(v) ==> v == hex_digit_value(byte_char(c)) && v < 16,
{
    if DIGIT_0 <= c && c <= DIGIT_9 {
        Some(c - DIGIT_0)
    } else if LOWER_A <= c && c <= LOWER_F {
        Some(c - LOWER_A + 10)
    } else if UPPER_A <= c && c <= UPPER_F {
        Some(c - UPPER_A + 10)
    } else {
        None
    }
}

/// Validates `s` against the lexical space of `xsd:hexBinary` and gives the bytes that a
/// literal denotes.
pub fn decode_hex_binary(s: &str) -> (r: Result<Vec<u8>, LexicalError>)
    ensures
        r is Ok <==> is_hex_binary(s@),
        r matches Ok(b) ==> b@ == hex_binary_value(s@),
        r matches Err(e) ==> hex_binary_outcome(s@, Err(e)),
{
    let b = match ascii_bytes(s) {
        Some(b) => b,
        None => {
            return Err(LexicalError::NonAscii);
        },
    };
    let n: usize = b.len();
    let mut out: Vec<u8> = Vec::new();
    let mut high: u8 = 0;
    let mut i: usize = 0;
    while i < n
        invariant
            bytes_spell(b@, s@),
            is_ascii_text(s@),
            n == b@.len(),
            i <= n,
            high < 16,
            forall|j: int| 0 <= j < i ==> is_hex_digit(#[trigger] s@[j]),
            i % 2 == 1 ==> high == hex_digit_value(s@[i - 1]),
            out@.len() == i / 2,
            forall|k: int| 0 <= k < out@.len() ==> #[trigger] out@[k] == hex_byte_at(s@, k),
        decreases n - i,
    {
        let c: u8 = b[i];
        assert(byte_char(c) == s@[i as int]);
        match hex_digit_of(c) {
            None => {
                proof {
                    let before = s@.take(i as int);
                    let upto = s@.take(i + 1);
                    assert(upto[i as int] == s@[i as int]);
                    assert forall|j: int| 0 <= j < before.len() implies is_hex_digit(
                        #[trigger] before[j],
                    ) by {
                        assert(before[j] == s@[j]);
                    }
                    assert(hex_binary_prefix(before));
                    assert(!hex_binary_prefix(upto));
                }
                return Err(LexicalError::UnexpectedCharacter(i));
            },
            Some(v) => {
                if i % 2 == 0 {
                    high = v;
                } else {
                    out.push(high * 16 + v);
                    assert(out@[(i / 2) as int] == hex_byte_at(s@, (i / 2) as int));
                }
            },
        }
        i += 1;
    }
    if n % 2 == 1 {
        Err(LexicalError::UnexpectedEnd)
    } else {
        assert(out@ =~= hex_binary_value(s@));
        Ok(out)
    }
}

/// The upper-case hexadecimal digit for `d`, as an ASCII byte.
fn hex_digit_byte(d: u8) -> (r: u8)
    requires
        d < 16,
    ensures
        r < 128,
        byte_char(r) == hex_digit_char(d as nat),
{
    if d < 10 {
        d + DIGIT_0
    } else {
        d - 10 + UPPER_A
    }
}

/// The canonical literal of `bytes`.
pub fn encode_hex_binary(bytes: &[u8]) -> (r: String)
    ensures
        r@ == canonical_hex_binary(bytes@),
{
    let n: usize = bytes.len();
    let mut out: Vec<u8> = Vec::new();
    let mut i: usize = 0;
    while i < n
        invariant
            n == bytes@.len(),
            i <= n,
            out@.len() == 2 * i,
            forall|j: int|
                0 <= j < out@.len() ==> (#[trigger] out@[j]) < 128 && byte_char(out@[j])
                    == canonical_hex_binary(bytes@)[j],
        decreases n - i,
    {
        let x: u8 = bytes[i];
        let ghost before = out@;
        out.push(hex_digit_byte(x / 16));
        out.push(hex_digit_byte(x % 16));
        proof {
            assert((2 * i) / 2 == i);
            assert((2 * i + 1) / 2 == i);
            assert forall|j: int| 0 <= j < out@.len() implies (#[trigger] out@[j]) < 128
                && byte_char(out@[j]) == canonical_hex_binary(bytes@)[j] by {
                if j < 2 * i {
                    assert(out@[j] == before[j]);
                }
            }
        }
        i += 1;
    }
    let ghost spelled = out@;
    let r = crate::text::string_from_ascii(out);
    proof {
        assert forall|j: int| 0 <= j < r@.len() implies r@[j] == canonical_hex_binary(
            bytes@,
        )[j] by {
            assert(byte_char(spelled[j]) == r@[j]);
        }
        assert(r@ =~= canonical_hex_binary(bytes@));
    }
    r
}

} // verus!
