//! The value space of `xsd:base64Binary`: finite sequences of bytes.
use crate::datatype::Datatype;
use crate::lexical::LexicalError;
use crate::lexical::base64_binary::{
    base64_binary_value, base64_error, canonical_base64_binary, decode_base64_binary,
    encode_base64_binary, is_base64_binary,
};
use crate::parse::{ParseRdf, ParseRdfError};
use crate::value::XsdDatatype;
use crate::value::integer::Integer;
use vstd::prelude::*;

verus! {

/// A sequence of bytes, written in Base64.
#[derive(Debug, PartialEq, Eq, Hash)]
pub struct Base64BinaryBuf {
    bytes: Vec<u8>,
}

impl View for Base64BinaryBuf {
    type V = Seq<u8>;

    closed spec fn view(&self) -> Seq<u8> {
        self.bytes@
    }
}

impl Clone for Base64BinaryBuf {
    fn clone(&self) -> (r: Self)
        ensures
            r@ == self@,
    {
        Base64BinaryBuf { bytes: self.bytes.clone() }
    }
}

impl Base64BinaryBuf {
    /// The value that holds `bytes`.
    pub fn from_bytes(bytes: Vec<u8>) -> (r: Self)
        ensures
            r@ == bytes@,
    {
        Base64BinaryBuf { bytes }
    }

    /// Reads a value from a literal of `xsd:base64Binary`.
    pub fn from_str(s: &str) -> (r: Result<Self, LexicalError>)
        ensures
            r is Ok <==> is_base64_binary(s@),
            r matches Ok(v) ==> v@ == base64_binary_value(s@),
            r matches Err(e) ==> e == base64_error(s@),
    {
        match decode_base64_binary(s) {
            Ok(bytes) => Ok(Base64BinaryBuf { bytes }),
            Err(e) => Err(e),
        }
    }

    /// The bytes.
    pub fn as_bytes(&self) -> (r: &[u8])
        ensures
            r@ == self@,
    {
        self.bytes.as_slice()
    }

    /// The bytes, as an owned vector.
    pub fn into_bytes(self) -> (r: Vec<u8>)
        ensures
            r@ == self@,
    {
        self.bytes
    }

    /// The canonical literal of this value: four characters of the Base64 alphabet for
    /// every three bytes, `=` where the last three are not full, and no space.
    pub fn to_string(&self) -> (r: String)
        ensures
            r@ == canonical_base64_binary(self@),
    {
        encode_base64_binary(self.bytes.as_slice())
    }
}

impl XsdDatatype for Base64BinaryBuf {
    open spec fn spec_type(&self) -> Datatype {
        Datatype::Base64Binary
    }

    fn type_(&self) -> (r: Datatype) {
        Datatype::Base64Binary
    }
}

impl ParseRdf for Base64BinaryBuf {
    open spec fn is_literal(s: Seq<char>) -> bool {
        is_base64_binary(s)
    }

    open spec fn in_value_space(s: Seq<char>) -> bool {
        true
    }

    open spec fn denotes(s: Seq<char>, v: Self) -> bool {
        v@ == base64_binary_value(s)
    }

    open spec fn lexical_error(s: Seq<char>, e: LexicalError) -> bool {
        e == base64_error(s)
    }

    fn parse_rdf(lexical_value: &str) -> (r: Result<Self, ParseRdfError<LexicalError, Integer>>) {
        match Base64BinaryBuf::from_str(lexical_value) {
            Ok(v) => Ok(v),
            Err(e) => Err(ParseRdfError::InvalidLexicalForm(e)),
        }
    }
}

} // verus!
