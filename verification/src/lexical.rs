//! Lexical spaces: for each datatype, the texts that are its literals, a validator that
//! decides membership in one scan, and a type for a text that has been validated.
pub mod base64_binary;
pub mod boolean;
pub mod decimal;
pub mod float;
pub mod hex_binary;
pub mod integer;

use vstd::prelude::*;

verus! {

/// Why a text is not a literal of a datatype.
#[derive(Clone, Copy, Debug, PartialEq, Eq, Hash)]
pub enum LexicalError {
    /// The text is empty, and the datatype has no empty literal.
    Empty,
    /// The text holds a character that is not ASCII. No literal of a datatype validated
    /// here holds one.
    NonAscii,
    /// The character at this position cannot follow the characters before it: they start
    /// some literal, but not with this character behind them.
    UnexpectedCharacter(usize),
    /// The text starts a literal but ends too early.
    UnexpectedEnd,
    /// The text is a literal of the datatype's base type whose value lies outside the
    /// datatype's value space.
    OutOfRange,
    /// The text does not conform to the datatype's grammar.
    Malformed,
}

/// What a validator answers on the text `s`, for a grammar with the literals `valid` and
/// the beginnings of literals `viable`: `Ok` on a literal; otherwise the first of
/// `Empty`, `NonAscii`, the first character that cannot stand where it does, and a text
/// that ends too early.
pub open spec fn scan_outcome(
    s: Seq<char>,
    valid: spec_fn(Seq<char>) -> bool,
    viable: spec_fn(Seq<char>) -> bool,
    r: Result<(), LexicalError>,
) -> bool {
    match r {
        Ok(()) => valid(s),
        Err(LexicalError::Empty) => s.len() == 0 && !valid(s),
        Err(LexicalError::NonAscii) => !crate::text::is_ascii_text(s),
        Err(LexicalError::UnexpectedCharacter(i)) => {
            &&& crate::text::is_ascii_text(s)
            &&& i < s.len()
            &&& viable(s.take(i as int))
            &&& !viable(s.take(i + 1))
        },
        Err(LexicalError::UnexpectedEnd) => {
            &&& crate::text::is_ascii_text(s)
            &&& s.len() > 0
            &&& viable(s)
            &&& !valid(s)
        },
        Err(LexicalError::OutOfRange) => false,
        Err(LexicalError::Malformed) => false,
    }
}

} // verus!
