//! The serialization collaborators. The codecs themselves are external:
//! serde_urlencoded turns a flat string-to-string mapping into a query
//! string, and serde_json turns a payload into a self-describing document
//! and back. Their results are named, never restated, and everything around
//! the calls is verified against those names.

use vstd::prelude::*;

use crate::shape::TypeTag;

verus! {

/// A value failed to serialize into its wire form.
#[derive(Clone, Copy, PartialEq, Eq, Structural, Debug)]
pub struct EncodeFailed;

/// Bytes failed to parse as the expected payload type.
#[derive(Clone, Copy, PartialEq, Eq, Structural, Debug)]
pub struct DecodeFailed;

/// The query string that serde_urlencoded produces from a sequence of string
/// pairs. It depends on the pairs alone.
pub uninterp spec fn urlencoded_of(pairs: Seq<(String, String)>) -> Seq<char>;

/// The JSON document that serde_json produces from a list of bytes: the
/// array of its numbers. It depends on the list alone.
pub uninterp spec fn json_of_byte_list(v: Seq<u8>) -> Seq<u8>;

/// What serde_json parses from bytes when a list of bytes is expected. It
/// depends on the bytes alone.
pub uninterp spec fn json_parse_byte_list(b: Seq<u8>) -> Option<Seq<u8>>;

/// The JSON document that serde_json produces from a (text, byte) pair: the
/// two-element array of the string and the number. It depends on the pair
/// alone.
pub uninterp spec fn json_of_text_byte_pair(s: Seq<char>, n: u8) -> Seq<u8>;

/// What serde_json parses from bytes when a (text, byte) pair is expected.
/// It depends on the bytes alone.
pub uninterp spec fn json_parse_text_byte_pair(b: Seq<u8>) -> Option<(Seq<char>, u8)>;

/// Relies on serde_urlencoded::to_string: a sequence of pairs is a supported
/// top-level input, string keys and values always serialize, and the result
/// is a function of the pairs alone.
#[verifier::external_body]
pub(crate) fn encode_query_pairs(pairs: &Vec<(String, String)>) -> (r: Result<String, EncodeFailed>)
    ensures
        r is Ok,
        r is Ok ==> r->Ok_0@ == urlencoded_of(pairs@),
{
    match serde_urlencoded::to_string(pairs) {
        Ok(s) => Ok(s),
        Err(_) => Err(EncodeFailed),
    }
}

/// Relies on serde_json::to_vec: a list of bytes always serializes (no maps,
/// no fallible serializer are involved), and the document is a function of
/// the list alone.
#[verifier::external_body]
fn encode_byte_list(v: &Vec<u8>) -> (r: Result<Vec<u8>, EncodeFailed>)
    ensures
        r is Ok,
        r is Ok ==> r->Ok_0@ == json_of_byte_list(v@),
{
    match serde_json::to_vec(v) {
        Ok(b) => Ok(b),
        Err(_) => Err(EncodeFailed),
    }
}

/// Relies on serde_json::from_slice: whether bytes parse as a list of bytes,
/// and what they parse to, depend on the bytes alone.
#[verifier::external_body]
fn decode_byte_list(b: &Vec<u8>) -> (r: Result<Vec<u8>, DecodeFailed>)
    ensures
        r is Ok <==> json_parse_byte_list(b@) is Some,
        r is Ok ==> json_parse_byte_list(b@) == Some(r->Ok_0@),
{
    match serde_json::from_slice::<Vec<u8>>(b) {
        Ok(v) => Ok(v),
        Err(_) => Err(DecodeFailed),
    }
}

/// Relies on serde_json::to_vec: a pair of a string and a byte always
/// serializes, and the document is a function of the pair alone.
#[verifier::external_body]
fn encode_text_byte_pair(s: &String, n: u8) -> (r: Result<Vec<u8>, EncodeFailed>)
    ensures
        r is Ok,
        r is Ok ==> r->Ok_0@ == json_of_text_byte_pair(s@, n),
{
    match serde_json::to_vec(&(s, n)) {
        Ok(b) => Ok(b),
        Err(_) => Err(EncodeFailed),
    }
}

/// Relies on serde_json::from_slice: whether bytes parse as a (text, byte)
/// pair, and what they parse to, depend on the bytes alone.
#[verifier::external_body]
fn decode_text_byte_pair(b: &Vec<u8>) -> (r: Result<(String, u8), DecodeFailed>)
    ensures
        r is Ok <==> json_parse_text_byte_pair(b@) is Some,
        r is Ok ==> json_parse_text_byte_pair(b@) == Some((r->Ok_0.0@, r->Ok_0.1)),
{
    match serde_json::from_slice::<(String, u8)>(b) {
        Ok(v) => Ok(v),
        Err(_) => Err(DecodeFailed),
    }
}

/// A payload type of the body channels: it has an identity tag, it
/// serializes into the document format, and it parses back out of it.
pub trait JsonPayload: Sized {
    /// The identity of this payload type inside shape tags.
    spec fn tag_spec() -> TypeTag;

    /// The document this value serializes to.
    spec fn encoding(self) -> Seq<u8>;

    /// Whether this value serializes at all.
    spec fn encodable(self) -> bool;

    /// Whether these bytes parse as this payload type.
    spec fn parseable(b: Seq<u8>) -> bool;

    /// Whether these bytes parse to exactly this value.
    spec fn parses_to(b: Seq<u8>, v: Self) -> bool;

    /// The identity tag, as a runtime value.
    fn type_tag() -> (r: TypeTag)
        ensures
            r == Self::tag_spec(),
    ;

    /// Serializes this value into the document format.
    fn encode_json(&self) -> (r: Result<Vec<u8>, EncodeFailed>)
        ensures
            (*self).encodable() ==> r is Ok,
            r is Ok ==> r->Ok_0@ == (*self).encoding(),
    ;

    /// Parses a value of this type out of document bytes; succeeds exactly
    /// on bytes that parse.
    fn decode_json(b: &Vec<u8>) -> (r: Result<Self, DecodeFailed>)
        ensures
            r is Ok <==> Self::parseable(b@),
            r is Ok ==> Self::parses_to(b@, r->Ok_0),
    ;
}

impl JsonPayload for Vec<u8> {
    open spec fn tag_spec() -> TypeTag {
        TypeTag(1)
    }

    open spec fn encoding(self) -> Seq<u8> {
        json_of_byte_list(self@)
    }

    open spec fn encodable(self) -> bool {
        true
    }

    open spec fn parseable(b: Seq<u8>) -> bool {
        json_parse_byte_list(b) is Some
    }

    open spec fn parses_to(b: Seq<u8>, v: Self) -> bool {
        json_parse_byte_list(b) == Some(v@)
    }

    fn type_tag() -> TypeTag {
        TypeTag(1)
    }

    fn encode_json(&self) -> Result<Vec<u8>, EncodeFailed> {
        encode_byte_list(self)
    }

    fn decode_json(b: &Vec<u8>) -> Result<Self, DecodeFailed> {
        decode_byte_list(b)
    }
}

impl JsonPayload for (String, u8) {
    open spec fn tag_spec() -> TypeTag {
        TypeTag(2)
    }

    open spec fn encoding(self) -> Seq<u8> {
        json_of_text_byte_pair(self.0@, self.1)
    }

    open spec fn encodable(self) -> bool {
        true
    }

    open spec fn parseable(b: Seq<u8>) -> bool {
        json_parse_text_byte_pair(b) is Some
    }

    open spec fn parses_to(b: Seq<u8>, v: Self) -> bool {
        json_parse_text_byte_pair(b) == Some((v.0@, v.1))
    }

    fn type_tag() -> TypeTag {
        TypeTag(2)
    }

    fn encode_json(&self) -> Result<Vec<u8>, EncodeFailed> {
        encode_text_byte_pair(&self.0, self.1)
    }

    fn decode_json(b: &Vec<u8>) -> Result<Self, DecodeFailed> {
        decode_text_byte_pair(b)
    }
}

} // verus!
