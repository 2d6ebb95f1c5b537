//! Serializer strategies: interchangeable ways to turn a state value into
//! bytes and back.
//!
//! Each strategy encodes the state's wire value (its one distinguishing
//! optional field), so the byte format is purely a question of the strategy.
//! A strategy promises exactly two things: encoding never fails and is a
//! function of the value alone, and decoding the bytes it just wrote yields
//! the same value, while malformed bytes are reported rather than guessed at.
use vstd::prelude::*;

use crate::errors::DialogueError;
use crate::state::StateValue;
use crate::state::from_wire;
use crate::state::lemma_wire_round_trip;
use crate::state::state_of_wire;
use crate::state::to_wire;
use crate::state::wire_of;

verus! {

/// A way to turn a state value into bytes and back.
///
/// `encodes` and `decodes` name the strategy's byte format abstractly; the
/// two methods are pinned to them exactly, so distinct strategies can be
/// mixed in one program and reasoned about uniformly.
pub trait Serializer: Sized {
    /// The bytes this strategy writes for a given wire value.
    spec fn encodes(&self, w: Option<Seq<char>>) -> Seq<u8>;

    /// The wire value this strategy reads from the given bytes, or `None`
    /// when the bytes are malformed for this strategy.
    spec fn decodes(&self, b: Seq<u8>) -> Option<Option<Seq<char>>>;

    /// Serializes a state value to bytes. Never fails: every strategy of
    /// this crate represents every state, and what it writes reads back as
    /// the same value.
    fn serialize(&self, val: &StateValue) -> (r: Result<Vec<u8>, DialogueError>)
        ensures
            r matches Ok(b) && b@ == self.encodes(wire_of(val@)) && self.decodes(b@) == Some(
                wire_of(val@),
            ),
    ;

    /// Deserializes a state value from bytes. Returns the state the bytes
    /// denote, or reports malformed bytes; it never silently substitutes a
    /// state.
    fn deserialize(&self, data: &[u8]) -> (r: Result<StateValue, DialogueError>)
        ensures
            match self.decodes(data@) {
                Some(w) => r matches Ok(v) && v@ == state_of_wire(w),
                None => r == Err::<StateValue, DialogueError>(DialogueError::DeserializationError),
            },
    ;
}

/// Deserializing what was just serialized yields an equal state, whatever
/// the strategy.
pub fn round_trip<Z: Serializer>(strategy: &Z, val: &StateValue) -> (r: StateValue)
    ensures
        r@ == val@,
{
    let bytes = match strategy.serialize(val) {
        Ok(b) => b,
        Err(_) => {
            return vstd::pervasive::unreached();
        },
    };
    match strategy.deserialize(bytes.as_slice()) {
        Ok(v) => {
            proof {
                lemma_wire_round_trip(val@);
            }
            v
        },
        Err(_) => vstd::pervasive::unreached(),
    }
}

/// The JSON text that the JSON strategy writes for a wire value.
pub uninterp spec fn json_encoding(w: Option<Seq<char>>) -> Seq<u8>;

/// The wire value that JSON parsing reads from bytes, or `None` when they
/// are not the JSON text of any wire value.
pub uninterp spec fn json_decoding(b: Seq<u8>) -> Option<Option<Seq<char>>>;

/// Relies on serde_json::to_vec: the JSON text written for an optional
/// string depends on the value alone, writing it to a vector cannot fail for
/// such a value, and serde_json::from_slice parses that text back to an
/// equal value.
#[verifier::external_body]
fn json_encode(w: &Option<String>) -> (r: Vec<u8>)
    ensures
        r@ == json_encoding(w.deep_view()),
        json_decoding(r@) == Some(w.deep_view()),
{
    match serde_json::to_vec(w) {
        Ok(bytes) => bytes,
        Err(_) => Vec::new(),
    }
}

/// Relies on serde_json::from_slice: whether an optional string parses from
/// the given bytes, and to which value, depends on the bytes alone.
#[verifier::external_body]
fn json_decode(data: &[u8]) -> (r: Option<Option<String>>)
    ensures
        match json_decoding(data@) {
            Some(w) => r matches Some(x) && x.deep_view() == w,
            None => r is None,
        },
{
    serde_json::from_slice::<Option<String>>(data).ok()
}

/// The JSON serializer: a textual structured format.
pub struct JSON;

impl Serializer for JSON {
    open spec fn encodes(&self, w: Option<Seq<char>>) -> Seq<u8> {
        json_encoding(w)
    }

    open spec fn decodes(&self, b: Seq<u8>) -> Option<Option<Seq<char>>> {
        json_decoding(b)
    }

    fn serialize(&self, val: &StateValue) -> (r: Result<Vec<u8>, DialogueError>) {
        let wire = to_wire(val);
        Ok(json_encode(&wire))
    }

    fn deserialize(&self, data: &[u8]) -> (r: Result<StateValue, DialogueError>) {
        match json_decode(data) {
            Some(w) => Ok(from_wire(w)),
            None => Err(DialogueError::DeserializationError),
        }
    }
}

/// The CBOR bytes that the CBOR strategy writes for a wire value.
pub uninterp spec fn cbor_encoding(w: Option<Seq<char>>) -> Seq<u8>;

/// The wire value that CBOR parsing reads from bytes, or `None` when they
/// are not the CBOR encoding of any wire value.
pub uninterp spec fn cbor_decoding(b: Seq<u8>) -> Option<Option<Seq<char>>>;

/// Relies on serde_cbor::to_vec: the CBOR bytes written for an optional
/// string depend on the value alone, writing them to a vector cannot fail
/// for such a value, and serde_cbor::from_slice parses them back to an equal
/// value.
#[verifier::external_body]
fn cbor_encode(w: &Option<String>) -> (r: Vec<u8>)
    ensures
        r@ == cbor_encoding(w.deep_view()),
        cbor_decoding(r@) == Some(w.deep_view()),
{
    match serde_cbor::to_vec(w) {
        Ok(bytes) => bytes,
        Err(_) => Vec::new(),
    }
}

/// Relies on serde_cbor::from_slice: whether an optional string parses from
/// the given bytes, and to which value, depends on the bytes alone.
#[verifier::external_body]
fn cbor_decode(data: &[u8]) -> (r: Option<Option<String>>)
    ensures
        match cbor_decoding(data@) {
            Some(w) => r matches Some(x) && x.deep_view() == w,
            None => r is None,
        },
{
    serde_cbor::from_slice::<Option<String>>(data).ok()
}

/// The CBOR serializer: a compact binary format.
pub struct CBOR;

impl Serializer for CBOR {
    open spec fn encodes(&self, w: Option<Seq<char>>) -> Seq<u8> {
        cbor_encoding(w)
    }

    open spec fn decodes(&self, b: Seq<u8>) -> Option<Option<Seq<char>>> {
        cbor_decoding(b)
    }

    fn serialize(&self, val: &StateValue) -> (r: Result<Vec<u8>, DialogueError>) {
        let wire = to_wire(val);
        Ok(cbor_encode(&wire))
    }

    fn deserialize(&self, data: &[u8]) -> (r: Result<StateValue, DialogueError>) {
        match cbor_decode(data) {
            Some(w) => Ok(from_wire(w)),
            None => Err(DialogueError::DeserializationError),
        }
    }
}

/// The bincode bytes that the bincode strategy writes for a wire value.
pub uninterp spec fn bincode_encoding(w: Option<Seq<char>>) -> Seq<u8>;

/// The wire value that bincode decoding reads from bytes, or `None` when
/// they are not the bincode encoding of any wire value.
pub uninterp spec fn bincode_decoding(b: Seq<u8>) -> Option<Option<Seq<char>>>;

/// Relies on bincode::serialize: the bytes written for an optional string
/// depend on the value alone, writing them to a vector cannot fail for such
/// a value, and bincode::deserialize reads them back as an equal value.
#[verifier::external_body]
fn bincode_encode(w: &Option<String>) -> (r: Vec<u8>)
    ensures
        r@ == bincode_encoding(w.deep_view()),
        bincode_decoding(r@) == Some(w.deep_view()),
{
    match bincode::serialize(w) {
        Ok(bytes) => bytes,
        Err(_) => Vec::new(),
    }
}

/// Relies on bincode::deserialize: whether an optional string decodes from
/// the given bytes, and to which value, depends on the bytes alone.
#[verifier::external_body]
fn bincode_decode(data: &[u8]) -> (r: Option<Option<String>>)
    ensures
        match bincode_decoding(data@) {
            Some(w) => r matches Some(x) && x.deep_view() == w,
            None => r is None,
        },
{
    bincode::deserialize::<Option<String>>(data).ok()
}

/// The bincode serializer: a compact binary format.
pub struct Bincode;

impl Serializer for Bincode {
    open spec fn encodes(&self, w: Option<Seq<char>>) -> Seq<u8> {
        bincode_encoding(w)
    }

    open spec fn decodes(&self, b: Seq<u8>) -> Option<Option<Seq<char>>> {
        bincode_decoding(b)
    }

    fn serialize(&self, val: &StateValue) -> (r: Result<Vec<u8>, DialogueError>) {
        let wire = to_wire(val);
        Ok(bincode_encode(&wire))
    }

    fn deserialize(&self, data: &[u8]) -> (r: Result<StateValue, DialogueError>) {
        match bincode_decode(data) {
            Some(w) => Ok(from_wire(w)),
            None => Err(DialogueError::DeserializationError),
        }
    }
}

} // verus!
