//! The lexical space of `xsd:boolean`: `true`, `false`, `1` and `0`.
use crate::lexical::LexicalError;
use crate::parse::{ParseRdf, ParseRdfError};
use crate::text::str_eq;
use crate::value::integer::Integer;
use vstd::prelude::*;

verus! {

/// The literals that denote truth.
pub open spec fn is_true_literal(s: Seq<char>) -> bool {
    s == seq!['t', 'r', 'u', 'e'] || s == seq!['1']
}

/// The literals that denote falsehood.
pub open spec fn is_false_literal(s: Seq<char>) -> bool {
    s == seq!['f', 'a', 'l', 's', 'e'] || s == seq!['0']
}

/// The lexical space of `xsd:boolean`.
pub open spec fn is_boolean(s: Seq<char>) -> bool {
    is_true_literal(s) || is_false_literal(s)
}

/// The truth value that an `xsd:boolean` literal denotes.
pub open spec fn boolean_value(s: Seq<char>) -> bool {
    is_true_literal(s)
}

/// The canonical literal of a truth value: `true` or `false`.
pub open spec fn canonical_boolean(b: bool) -> Seq<char> {
    if b {
        seq!['t', 'r', 'u', 'e']
    } else {
        seq!['f', 'a', 'l', 's', 'e']
    }
}

/// The canonical literal of a truth value is a literal and denotes that value.
pub proof fn lemma_canonical_boolean(b: bool)
    ensures
        is_boolean(canonical_boolean(b)),
        boolean_value(canonical_boolean(b)) == b,
{
    assert(seq!['f', 'a', 'l', 's', 'e'].len() == 5);
    assert(seq!['t', 'r', 'u', 'e'].len() == 4);
    assert(seq!['1'].len() == 1);
}

/// Validates `s` against the lexical space of `xsd:boolean` and gives the truth value of a
/// literal.
pub fn scan_boolean(s: &str) -> (r: Result<bool, LexicalError>)
    ensures
        r is Ok <==> is_boolean(s@),
        r matches Ok(b) ==> b == boolean_value(s@),
        r matches Err(e) ==> e == (if s@.len() == 0 {
            LexicalError::Empty
        } else {
            LexicalError::Malformed
        }),
{
    proof {
        reveal_strlit("true");
        reveal_strlit("false");
        reveal_strlit("1");
        reveal_strlit("0");
        assert("true"@ =~= seq!['t', 'r', 'u', 'e']);
        assert("false"@ =~= seq!['f', 'a', 'l', 's', 'e']);
        assert("1"@ =~= seq!['1']);
        assert("0"@ =~= seq!['0']);
        assert(seq!['f', 'a', 'l', 's', 'e'].len() == 5);
        assert(seq!['t', 'r', 'u', 'e'].len() == 4);
        assert(seq!['1'].len() == 1);
        assert(seq!['0'].len() == 1);
        assert(seq!['1'][0] != seq!['0'][0]);
    }
    if str_eq(s, "true") || str_eq(s, "1") {
        Ok(true)
    } else if str_eq(s, "false") || str_eq(s, "0") {
        Ok(false)
    } else if s.is_empty() {
        Err(LexicalError::Empty)
    } else {
        Err(LexicalError::Malformed)
    }
}

/// A text that has been validated as a literal of `xsd:boolean`.
#[derive(Debug, PartialEq, Eq, Hash)]
pub struct BooleanBuf {
    text: String,
}

impl View for BooleanBuf {
    type V = Seq<char>;

    closed spec fn view(&self) -> Seq<char> {
        self.text@
    }
}

impl BooleanBuf {
    /// What holds of every value of this type.
    #[verifier::type_invariant]
    pub open spec fn wf(&self) -> bool {
        is_boolean(self@)
    }

    /// Validates `s` and keeps a copy of it.
    pub fn new(s: &str) -> (r: Result<Self, LexicalError>)
        ensures
            r is Ok <==> is_boolean(s@),
            r matches Ok(l) ==> l@ == s@,
            r matches Err(e) ==> e == (if s@.len() == 0 {
                LexicalError::Empty
            } else {
                LexicalError::Malformed
            }),
    {
        match scan_boolean(s) {
            Ok(_) => Ok(BooleanBuf { text: s.to_owned() }),
            Err(e) => Err(e),
        }
    }

    /// The literal.
    pub fn as_str(&self) -> (r: &str)
        ensures
            r@ == self@,
            is_boolean(r@),
    {
        proof {
            use_type_invariant(self);
        }
        self.text.as_str()
    }

    /// The literal, as an owned string.
    pub fn into_string(self) -> (r: String)
        ensures
            r@ == self@,
            is_boolean(r@),
    {
        proof {
            use_type_invariant(&self);
        }
        self.text
    }

    /// The truth value that this literal denotes.
    pub fn value(&self) -> (r: bool)
        ensures
            r == boolean_value(self@),
    {
        proof {
            use_type_invariant(self);
        }
        match scan_boolean(self.text.as_str()) {
            Ok(b) => b,
            Err(_) => false,
        }
    }
}

/// The canonical literal of the truth value `b`.
pub fn boolean_lexical_representation(b: bool) -> (r: BooleanBuf)
    ensures
        r@ == canonical_boolean(b),
{
    proof {
        reveal_strlit("true");
        reveal_strlit("false");
        assert("true"@ =~= seq!['t', 'r', 'u', 'e']);
        assert("false"@ =~= seq!['f', 'a', 'l', 's', 'e']);
        lemma_canonical_boolean(b);
    }
    if b {
        BooleanBuf { text: "true".to_owned() }
    } else {
        BooleanBuf { text: "false".to_owned() }
    }
}

impl ParseRdf for bool {
    open spec fn is_literal(s: Seq<char>) -> bool {
        is_boolean(s)
    }

    open spec fn in_value_space(s: Seq<char>) -> bool {
        true
    }

    open spec fn denotes(s: Seq<char>, v: Self) -> bool {
        v == boolean_value(s)
    }

    open spec fn lexical_error(s: Seq<char>, e: LexicalError) -> bool {
        e == (if s.len() == 0 {
            LexicalError::Empty
        } else {
            LexicalError::Malformed
        })
    }

    fn parse_rdf(lexical_value: &str) -> (r: Result<Self, ParseRdfError<LexicalError, Integer>>) {
        match scan_boolean(lexical_value) {
            Ok(v) => Ok(v),
            Err(e) => Err(ParseRdfError::InvalidLexicalForm(e)),
        }
    }
}

} // verus!
