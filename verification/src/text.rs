//! Small helpers on text that the validators and the catalog share.
use vstd::prelude::*;

verus! {

/// The ASCII codes of the characters that the validators tell apart.
pub const SPACE: u8 = 32;

pub const PLUS: u8 = 43;

pub const MINUS: u8 = 45;

pub const POINT: u8 = 46;

pub const SLASH: u8 = 47;

pub const DIGIT_0: u8 = 48;

pub const DIGIT_9: u8 = 57;

pub const EQUALS: u8 = 61;

pub const UPPER_A: u8 = 65;

pub const UPPER_E: u8 = 69;

pub const UPPER_F: u8 = 70;

pub const UPPER_Z: u8 = 90;

pub const LOWER_A: u8 = 97;

pub const LOWER_E: u8 = 101;

pub const LOWER_F: u8 = 102;

pub const LOWER_Z: u8 = 122;

/// True when every character of `s` is an ASCII character.
pub open spec fn is_ascii_text(s: Seq<char>) -> bool {
    forall|i: int| 0 <= i < s.len() ==> '\0' <= (#[trigger] s[i]) <= '\u{7f}'
}

/// The character that an ASCII byte stands for.
pub open spec fn byte_char(b: u8) -> char {
    b as char
}

/// True when `b` holds, byte for byte, the characters of `s`, all of them ASCII.
pub open spec fn bytes_spell(b: Seq<u8>, s: Seq<char>) -> bool {
    &&& b.len() == s.len()
    &&& forall|i: int| 0 <= i < s.len() ==> (#[trigger] b[i]) < 128 && byte_char(b[i]) == s[i]
}

/// The bytes of `s` when `s` is ASCII, and `None` otherwise.
pub fn ascii_bytes(s: &str) -> (r: Option<&[u8]>)
    ensures
        r is Some <==> is_ascii_text(s@),
        r matches Some(b) ==> bytes_spell(b@, s@),
{
    if s.is_ascii() {
        let b = s.as_bytes();
        proof {
            vstd::string::is_ascii_spec_bytes(s);
            assert forall|i: int| 0 <= i < s@.len() implies (#[trigger] b@[i]) < 128 && byte_char(
                b@[i],
            ) == s@[i] by {
                assert(b@[i] == s@[i] as u8);
                assert(s@[i] <= '\u{7f}');
            }
        }
        Some(b)
    } else {
        None
    }
}

/// Compares two string slices with `str`'s own `==`, which holds exactly when both hold the
/// same characters in the same order.
#[verifier::external_body]
pub(crate) fn str_eq(a: &str, b: &str) -> (r: bool)
    ensures
        r == (a@ == b@),
{
    a == b
}

/// `String::from_utf8` on ASCII bytes: the string whose characters are those bytes. It fails
/// only on bytes that are no UTF-8, and every sequence of ASCII bytes is UTF-8.
#[verifier::external_body]
pub(crate) fn string_from_ascii(bytes: Vec<u8>) -> (r: String)
    requires
        forall|i: int| 0 <= i < bytes@.len() ==> (#[trigger] bytes@[i]) < 128,
    ensures
        bytes_spell(bytes@, r@),
{
    String::from_utf8(bytes).unwrap()
}

} // verus!
