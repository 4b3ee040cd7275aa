//! The value space of `xsd:hexBinary`: finite sequences of bytes.
use crate::datatype::Datatype;
use crate::lexical::LexicalError;
use crate::lexical::hex_binary::{
    canonical_hex_binary, decode_hex_binary, encode_hex_binary, hex_binary_outcome,
    hex_binary_value, is_hex_binary,
};
use crate::parse::{ParseRdf, ParseRdfError};
use crate::value::XsdDatatype;
use crate::value::integer::Integer;
use vstd::prelude::*;

verus! {

/// A sequence of bytes, written in hexadecimal.
#[derive(Debug, PartialEq, Eq, Hash)]
pub struct HexBinaryBuf {
    bytes: Vec<u8>,
}

impl View for HexBinaryBuf {
    type V = Seq<u8>;

    closed spec fn view(&self) -> Seq<u8> {
        self.bytes@
    }
}

impl Clone for HexBinaryBuf {
    fn clone(&self) -> (r: Self)
        ensures
            r@ == self@,
    {
        HexBinaryBuf { bytes: self.bytes.clone() }
    }
}

impl HexBinaryBuf {
    /// The value that holds `bytes`.
    pub fn from_bytes(bytes: Vec<u8>) -> (r: Self)
        ensures
            r@ == bytes@,
    {
        HexBinaryBuf { bytes }
    }

    /// Reads a value from a literal of `xsd:hexBinary`.
    pub fn from_str(s: &str) -> (r: Result<Self, LexicalError>)
        ensures
            r is Ok <==> is_hex_binary(s@),
            r matches Ok(v) ==> v@ == hex_binary_value(s@),
            r matches Err(e) ==> hex_binary_outcome(s@, Err(e)),
    {
        match decode_hex_binary(s) {
            Ok(bytes) => Ok(HexBinaryBuf { bytes }),
            Err(e) => Err(e),
        }
    }

    /// The bytes.
    pub fn as_bytes(&self) -> (r: &[u8])
        ensures
            r@ == self@,
    {
        self.bytes.as_slice()
    }

    /// The bytes, as an owned vector.
    pub fn into_bytes(self) -> (r: Vec<u8>)
        ensures
            r@ == self@,
    {
        self.bytes
    }

    /// The canonical literal of this value: two upper-case hexadecimal digits for each
    /// byte.
    pub fn to_string(&self) -> (r: String)
        ensures
            r@ == canonical_hex_binary(self@),
    {
        encode_hex_binary(self.bytes.as_slice())
    }
}

impl XsdDatatype for HexBinaryBuf {
    open spec fn spec_type(&self) -> Datatype {
        Datatype::HexBinary
    }

    fn type_(&self) -> (r: Datatype) {
        Datatype::HexBinary
    }
}

impl ParseRdf for HexBinaryBuf {
    open spec fn is_literal(s: Seq<char>) -> bool {
        is_hex_binary(s)
    }

    open spec fn in_value_space(s: Seq<char>) -> bool {
        true
    }

    open spec fn denotes(s: Seq<char>, v: Self) -> bool {
        v@ == hex_binary_value(s)
    }

    open spec fn lexical_error(s: Seq<char>, e: LexicalError) -> bool {
        hex_binary_outcome(s, Err(e))
    }

    fn parse_rdf(lexical_value: &str) -> (r: Result<Self, ParseRdfError<LexicalError, Integer>>) {
        match HexBinaryBuf::from_str(lexical_value) {
            Ok(v) => Ok(v),
            Err(e) => Err(ParseRdfError::InvalidLexicalForm(e)),
        }
    }
}

} // verus!
