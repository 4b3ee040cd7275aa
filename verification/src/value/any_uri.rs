//! The value space of `xsd:anyURI`: the URIs, as `iref` recognises them.
use crate::datatype::Datatype;
use crate::lexical::LexicalError;
use crate::parse::{ParseRdf, ParseRdfError};
use crate::value::XsdDatatype;
use crate::value::integer::Integer;
use vstd::prelude::*;

verus! {

/// Whether `iref::Uri::new` accepts the text `s` as a URI.
pub uninterp spec fn is_uri(s: Seq<char>) -> bool;

/// `iref::Uri::new`: tells whether `s` conforms to the URI grammar of RFC 3986, which is
/// decided by the characters of `s` alone.
#[verifier::external_body]
fn uri_is_valid(s: &str) -> (r: bool)
    ensures
        r == is_uri(s@),
{
    iref::Uri::new(s).is_ok()
}

/// A URI.
#[derive(Debug, PartialEq, Eq, Hash)]
pub struct AnyUriBuf {
    text: String,
}

impl View for AnyUriBuf {
    type V = Seq<char>;

    closed spec fn view(&self) -> Seq<char> {
        self.text@
    }
}

impl Clone for AnyUriBuf {
    fn clone(&self) -> (r: Self)
        ensures
            r@ == self@,
    {
        proof {
            use_type_invariant(self);
        }
        AnyUriBuf { text: self.text.clone() }
    }
}

impl AnyUriBuf {
    /// What holds of every value of this type.
    #[verifier::type_invariant]
    pub open spec fn wf(&self) -> bool {
        is_uri(self@)
    }

    /// Keeps a copy of `s` when `valid` says that it is a URI.
    pub fn from_validated(s: &str, valid: bool) -> (r: Result<Self, LexicalError>)
        requires
            valid == is_uri(s@),
        ensures
            r is Ok <==> valid,
            r matches Ok(u) ==> u@ == s@,
            r matches Err(e) ==> e == LexicalError::Malformed,
    {
        if valid {
            Ok(AnyUriBuf { text: s.to_owned() })
        } else {
            Err(LexicalError::Malformed)
        }
    }

    /// Validates `s` as a URI and keeps a copy of it.
    pub fn new(s: &str) -> (r: Result<Self, LexicalError>)
        ensures
            r is Ok <==> is_uri(s@),
            r matches Ok(u) ==> u@ == s@,
            r matches Err(e) ==> e == LexicalError::Malformed,
    {
        let valid = uri_is_valid(s);
        AnyUriBuf::from_validated(s, valid)
    }

    /// The text of the URI.
    pub fn as_str(&self) -> (r: &str)
        ensures
            r@ == self@,
            is_uri(r@),
    {
        proof {
            use_type_invariant(self);
        }
        self.text.as_str()
    }

    /// The text of the URI, as an owned string.
    pub fn into_string(self) -> (r: String)
        ensures
            r@ == self@,
            is_uri(r@),
    {
        proof {
            use_type_invariant(&self);
        }
        self.text
    }
}

impl XsdDatatype for AnyUriBuf {
    open spec fn spec_type(&self) -> Datatype {
        Datatype::AnyUri
    }

    fn type_(&self) -> (r: Datatype) {
        Datatype::AnyUri
    }
}

impl ParseRdf for AnyUriBuf {
    open spec fn is_literal(s: Seq<char>) -> bool {
        is_uri(s)
    }

    open spec fn in_value_space(s: Seq<char>) -> bool {
        true
    }

    open spec fn denotes(s: Seq<char>, v: Self) -> bool {
        v@ == s
    }

    open spec fn lexical_error(s: Seq<char>, e: LexicalError) -> bool {
        e == LexicalError::Malformed
    }

    fn parse_rdf(lexical_value: &str) -> (r: Result<Self, ParseRdfError<LexicalError, Integer>>) {
        match AnyUriBuf::new(lexical_value) {
            Ok(v) => Ok(v),
            Err(e) => Err(ParseRdfError::InvalidLexicalForm(e)),
        }
    }
}

} // verus!
