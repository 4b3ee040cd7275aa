//! The lexical space of `xsd:float` and `xsd:double`: a decimal numeral, optionally
//! followed by `e` or `E` and an integer exponent; or one of `INF`, `-INF` and `NaN`.
use crate::lexical::LexicalError;
use crate::lexical::decimal::{check_decimal, is_decimal};
use crate::lexical::integer::{check_integer, has_sign, is_integer, unsigned_part};
use crate::parse::{ParseRdf, ParseRdfError};
use crate::text::{ascii_bytes, byte_char, bytes_spell, is_ascii_text, str_eq, LOWER_E, UPPER_E};
use crate::value::integer::Integer;
use vstd::prelude::*;
use vstd::string::StrSliceExecFns;

verus! {

/// True for the two characters that introduce an exponent.
pub open spec fn is_exponent_mark(c: char) -> bool {
    c == 'e' || c == 'E'
}

/// The three literals that denote no finite number: `INF`, `-INF` and `NaN`.
pub open spec fn is_special_float(s: Seq<char>) -> bool {
    s == seq!['I', 'N', 'F'] || s == seq!['-', 'I', 'N', 'F'] || s == seq!['N', 'a', 'N']
}

/// True when `s` is a numeral whose mantissa is its first `k` characters: the mantissa is
/// an `xsd:decimal` literal and either ends `s` or is followed by an exponent mark and an
/// `xsd:integer` literal.
pub open spec fn splits_float_at(s: Seq<char>, k: int) -> bool {
    &&& 0 <= k <= s.len()
    &&& is_decimal(s.take(k))
    &&& k < s.len() ==> is_exponent_mark(s[k]) && is_integer(s.skip(k + 1))
}

/// The literals of `xsd:float` that denote a finite number.
pub open spec fn is_float_number(s: Seq<char>) -> bool {
    exists|k: int| splits_float_at(s, k)
}

/// The lexical space of `xsd:float`, and of `xsd:double`.
pub open spec fn is_float(s: Seq<char>) -> bool {
    is_special_float(s) || is_float_number(s)
}

/// Why a text that is no `xsd:float` literal is refused: it is empty, or holds a
/// character that is not ASCII, or is malformed in another way.
pub open spec fn float_error(s: Seq<char>) -> LexicalError {
    if s.len() == 0 {
        LexicalError::Empty
    } else if !is_ascii_text(s) {
        LexicalError::NonAscii
    } else {
        LexicalError::Malformed
    }
}

/// An `xsd:decimal` literal holds no exponent mark.
proof fn lemma_decimal_has_no_mark(t: Seq<char>)
    requires
        is_decimal(t),
    ensures
        forall|i: int| 0 <= i < t.len() ==> !is_exponent_mark(#[trigger] t[i]),
{
    let u = unsigned_part(t);
    assert forall|i: int| 0 <= i < t.len() implies !is_exponent_mark(#[trigger] t[i]) by {
        if has_sign(t) {
            if i > 0 {
                assert(u[i - 1] == t[i]);
            }
        } else {
            assert(u[i] == t[i]);
        }
    }
}

/// A numeral splits only at its first exponent mark, or at its end when it has none.
proof fn lemma_split_is_unique(s: Seq<char>, k: int, j: int)
    requires
        0 <= k <= s.len(),
        forall|i: int| 0 <= i < k ==> !is_exponent_mark(#[trigger] s[i]),
        k < s.len() ==> is_exponent_mark(s[k]),
        splits_float_at(s, j),
    ensures
        j == k,
{
    lemma_decimal_has_no_mark(s.take(j));
    if j > k {
        assert(s.take(j)[k] == s[k]);
    }
}

/// Validates `s` against the lexical space of `xsd:float`.
pub fn check_float(s: &str) -> (r: Result<(), LexicalError>)
    ensures
        r is Ok <==> is_float(s@),
        r matches Err(e) ==> e == float_error(s@),
{
    proof {
        reveal_strlit("INF");
        reveal_strlit("-INF");
        reveal_strlit("NaN");
        assert("INF"@ =~= seq!['I', 'N', 'F']);
        assert("-INF"@ =~= seq!['-', 'I', 'N', 'F']);
        assert("NaN"@ =~= seq!['N', 'a', 'N']);
    }
    if str_eq(s, "INF") || str_eq(s, "-INF") || str_eq(s, "NaN") {
        return Ok(());
    }
    let b = match ascii_bytes(s) {
        Some(b) => b,
        None => {
            proof {
                if is_float_number(s@) {
                    let j = choose|j: int| splits_float_at(s@, j);
                    lemma_float_number_is_ascii(s@, j);
                }
            }
            return Err(LexicalError::NonAscii);
        },
    };
    let n: usize = b.len();
    if n == 0 {
        proof {
            if is_float_number(s@) {
                let j = choose|j: int| splits_float_at(s@, j);
                assert(s@.take(j).len() == 0);
            }
        }
        return Err(LexicalError::Empty);
    }
    let mut k: usize = 0;
    while k < n && b[k] != LOWER_E && b[k] != UPPER_E
        invariant
            bytes_spell(b@, s@),
            n == b@.len(),
            k <= n,
            forall|i: int| 0 <= i < k ==> !is_exponent_mark(#[trigger] s@[i]),
        decreases n - k,
    {
        assert(byte_char(b@[k as int]) == s@[k as int]);
        k += 1;
    }
    proof {
        if k < n {
            assert(byte_char(b@[k as int]) == s@[k as int]);
        }
        if is_float_number(s@) {
            let j = choose|j: int| splits_float_at(s@, j);
            lemma_split_is_unique(s@, k as int, j);
        }
    }
    let mantissa = s.substring_ascii(0, k);
    assert(mantissa@ == s@.take(k as int));
    if check_decimal(mantissa).is_err() {
        return Err(LexicalError::Malformed);
    }
    if k == n {
        assert(splits_float_at(s@, k as int));
        return Ok(());
    }
    let exponent = s.substring_ascii(k + 1, n);
    assert(exponent@ == s@.skip(k + 1));
    if check_integer(exponent).is_err() {
        return Err(LexicalError::Malformed);
    }
    assert(splits_float_at(s@, k as int));
    Ok(())
}

/// A text that has been validated as a literal of `xsd:float`.
///
/// This library computes nothing in floating point: the number that the literal denotes
/// is for the caller to compute from the text.
#[derive(Debug, PartialEq, Eq, Hash)]
pub struct FloatBuf {
    text: String,
}

impl View for FloatBuf {
    type V = Seq<char>;

    closed spec fn view(&self) -> Seq<char> {
        self.text@
    }
}

impl Clone for FloatBuf {
    fn clone(&self) -> (r: Self)
        ensures
            r@ == self@,
    {
        proof {
            use_type_invariant(self);
        }
        FloatBuf { text: self.text.clone() }
    }
}

impl FloatBuf {
    /// What holds of every value of this type.
    #[verifier::type_invariant]
    pub open spec fn wf(&self) -> bool {
        is_float(self@)
    }

    /// Validates `s` and keeps a copy of it.
    pub fn new(s: &str) -> (r: Result<Self, LexicalError>)
        ensures
            r is Ok <==> is_float(s@),
            r matches Ok(l) ==> l@ == s@,
            r matches Err(e) ==> e == float_error(s@),
    {
        match check_float(s) {
            Ok(()) => Ok(FloatBuf { text: s.to_owned() }),
            Err(e) => Err(e),
        }
    }

    /// The literal.
    pub fn as_str(&self) -> (r: &str)
        ensures
            r@ == self@,
            is_float(r@),
    {
        proof {
            use_type_invariant(self);
        }
        self.text.as_str()
    }

    /// The literal, as an owned string.
    pub fn into_string(self) -> (r: String)
        ensures
            r@ == self@,
            is_float(r@),
    {
        proof {
            use_type_invariant(&self);
        }
        self.text
    }
}

/// A text that has been validated as a literal of `xsd:double`.
///
/// This library computes nothing in floating point: the number that the literal denotes
/// is for the caller to compute from the text.
#[derive(Debug, PartialEq, Eq, Hash)]
pub struct DoubleBuf {
    text: String,
}

impl View for DoubleBuf {
    type V = Seq<char>;

    closed spec fn view(&self) -> Seq<char> {
        self.text@
    }
}

impl Clone for DoubleBuf {
    fn clone(&self) -> (r: Self)
        ensures
            r@ == self@,
    {
        proof {
            use_type_invariant(self);
        }
        DoubleBuf { text: self.text.clone() }
    }
}

impl DoubleBuf {
    /// What holds of every value of this type.
    #[verifier::type_invariant]
    pub open spec fn wf(&self) -> bool {
        is_float(self@)
    }

    /// Validates `s` and keeps a copy of it.
    pub fn new(s: &str) -> (r: Result<Self, LexicalError>)
        ensures
            r is Ok <==> is_float(s@),
            r matches Ok(l) ==> l@ == s@,
            r matches Err(e) ==> e == float_error(s@),
    {
        match check_float(s) {
            Ok(()) => Ok(DoubleBuf { text: s.to_owned() }),
            Err(e) => Err(e),
        }
    }

    /// The literal.
    pub fn as_str(&self) -> (r: &str)
        ensures
            r@ == self@,
            is_float(r@),
    {
        proof {
            use_type_invariant(self);
        }
        self.text.as_str()
    }

    /// The literal, as an owned string.
    pub fn into_string(self) -> (r: String)
        ensures
            r@ == self@,
            is_float(r@),
    {
        proof {
            use_type_invariant(&self);
        }
        self.text
    }
}

impl ParseRdf for FloatBuf {
    open spec fn is_literal(s: Seq<char>) -> bool {
        is_float(s)
    }

    open spec fn in_value_space(s: Seq<char>) -> bool {
        true
    }

    open spec fn denotes(s: Seq<char>, v: Self) -> bool {
        v@ == s
    }

    open spec fn lexical_error(s: Seq<char>, e: LexicalError) -> bool {
        e == float_error(s)
    }

    fn parse_rdf(lexical_value: &str) -> (r: Result<Self, ParseRdfError<LexicalError, Integer>>) {
        match FloatBuf::new(lexical_value) {
            Ok(v) => Ok(v),
            Err(e) => Err(ParseRdfError::InvalidLexicalForm(e)),
        }
    }
}

impl ParseRdf for DoubleBuf {
    open spec fn is_literal(s: Seq<char>) -> bool {
        is_float(s)
    }

    open spec fn in_value_space(s: Seq<char>) -> bool {
        true
    }

    open spec fn denotes(s: Seq<char>, v: Self) -> bool {
        v@ == s
    }

    open spec fn lexical_error(s: Seq<char>, e: LexicalError) -> bool {
        e == float_error(s)
    }

    fn parse_rdf(lexical_value: &str) -> (r: Result<Self, ParseRdfError<LexicalError, Integer>>) {
        match DoubleBuf::new(lexical_value) {
            Ok(v) => Ok(v),
            Err(e) => Err(ParseRdfError::InvalidLexicalForm(e)),
        }
    }
}

/// A numeral is made of ASCII characters.
proof fn lemma_float_number_is_ascii(s: Seq<char>, k: int)
    requires
        splits_float_at(s, k),
    ensures
        is_ascii_text(s),
{
    let m = s.take(k);
    let um = unsigned_part(m);
    assert forall|i: int| 0 <= i < s.len() implies '\0' <= (#[trigger] s[i]) <= '\u{7f}' by {
        if i < k {
            assert(m[i] == s[i]);
            if has_sign(m) {
                if i > 0 {
                    assert(um[i - 1] == m[i]);
                }
            } else {
                assert(um[i] == m[i]);
            }
        } else if i > k {
            let e = s.skip(k + 1);
            crate::lexical::integer::lemma_integer_is_ascii(e);
            assert(e[i - k - 1] == s[i]);
        }
    }
}

} // verus!
