//! Messages over the channel. The channel is a plain byte stream: one read
//! returns whatever has arrived, up to the capacity of the buffer, and no
//! framing marks where one message ends.
use vstd::prelude::*;
use vstd::utf8::*;

use crate::error::IpcError;
use crate::text::{decode_text, text_round_trip};

verus! {

/// The capacity of the buffer into which a JSON message is read; a longer
/// message does not fit in one read.
pub const JSON_RECEIVE_CAPACITY: usize = 8192;

/// The capacity of the buffer into which the reply to a command is read.
pub const COMMAND_REPLY_CAPACITY: usize = 4096;

/// `serde_json::Value`, a decoded JSON value, carried through unread.
#[verifier::external_type_specification]
#[verifier::external_body]
pub struct ExJsonValue(serde_json::Value);

/// Whether `serde_json` reads these bytes as one JSON value.
pub uninterp spec fn parses_as_json(bytes: Seq<u8>) -> bool;

/// The value that `serde_json` reads from these bytes, where it reads one.
pub uninterp spec fn json_value_of(bytes: Seq<u8>) -> serde_json::Value;

/// The JSON text that `serde_json` writes for a value.
pub uninterp spec fn json_text_of(value: serde_json::Value) -> Seq<u8>;

/// Relies on `serde_json::from_slice` into a `Value`: whether it succeeds,
/// and the value it reads, depend on the bytes alone; no bytes at all are no
/// value.
#[verifier::external_body]
fn parse_json(bytes: &[u8]) -> (r: Result<serde_json::Value, serde_json::Error>)
    ensures
        r is Ok <==> parses_as_json(bytes@),
        r matches Ok(v) ==> v == json_value_of(bytes@),
        bytes@.len() == 0 ==> r is Err,
{
    serde_json::from_slice(bytes)
}

/// Relies on `serde_json::to_vec` to encode a `Value` as JSON text: the text
/// depends on the value alone, and a `Value`, whose map keys are strings,
/// always encodes into a `Vec`.
#[verifier::external_body]
fn json_to_vec(value: &serde_json::Value) -> (r: Result<Vec<u8>, serde_json::Error>)
    ensures
        r is Ok,
        r matches Ok(bytes) ==> bytes@ == json_text_of(*value),
{
    serde_json::to_vec(value)
}

/// Relies on `std::io::Error::new` to wrap an encoder's failure as invalid data.
#[verifier::external_body]
fn invalid_data(e: serde_json::Error) -> std::io::Error {
    std::io::Error::new(std::io::ErrorKind::InvalidData, e)
}

/// A zeroed buffer of `capacity` bytes to read into.
pub fn receive_buffer(capacity: usize) -> (r: Vec<u8>)
    ensures
        r@ == Seq::new(capacity as nat, |i: int| 0u8),
{
    let mut r: Vec<u8> = Vec::with_capacity(capacity);
    let mut i: usize = 0;
    while i < capacity
        invariant
            i <= capacity,
            r@ == Seq::new(i as nat, |k: int| 0u8),
        decreases capacity - i,
    {
        r.push(0u8);
        i = i + 1;
        proof {
            assert(r@ =~= Seq::new(i as nat, |k: int| 0u8));
        }
    }
    r
}

/// The bytes that one read of `count` bytes left in `buffer`.
pub fn received(buffer: Vec<u8>, count: usize) -> (r: Vec<u8>)
    requires
        count <= buffer@.len(),
    ensures
        r@ == buffer@.subrange(0, count as int),
{
    let mut buffer = buffer;
    buffer.truncate(count);
    buffer
}

/// The text that one read of `count` bytes left in `buffer`; fails exactly
/// when those bytes are not valid UTF-8.
pub fn received_text(buffer: Vec<u8>, count: usize) -> (r: Result<String, IpcError>)
    requires
        count <= buffer@.len(),
    ensures
        r is Ok <==> valid_utf8(buffer@.subrange(0, count as int)),
        r matches Ok(s) ==> s@ == decode_utf8(buffer@.subrange(0, count as int)),
        r matches Err(e) ==> e is InvalidUtf8,
{
    decode_text(received(buffer, count))
}

/// Text sent as its bytes, and read back in one read into a buffer with room
/// for all of them, is received as the text that was sent.
pub proof fn sent_text_is_received(s: Seq<char>, buffer: Seq<u8>)
    requires
        encode_utf8(s).len() <= buffer.len(),
        buffer.subrange(0, encode_utf8(s).len() as int) == encode_utf8(s),
    ensures
        valid_utf8(buffer.subrange(0, encode_utf8(s).len() as int)),
        decode_utf8(buffer.subrange(0, encode_utf8(s).len() as int)) == s,
{
    text_round_trip(s);
}

/// Decodes a JSON value from the bytes of one message.
pub fn decode_json(bytes: &[u8]) -> (r: Result<serde_json::Value, IpcError>)
    ensures
        r is Ok <==> parses_as_json(bytes@),
        r matches Ok(v) ==> v == json_value_of(bytes@),
        r matches Err(e) ==> e is InvalidJson,
        bytes@.len() == 0 ==> r is Err,
{
    match parse_json(bytes) {
        Ok(v) => Ok(v),
        Err(e) => Err(IpcError::InvalidJson(e)),
    }
}

/// The JSON value that one read of `count` bytes left in `buffer`.
pub fn received_json(buffer: Vec<u8>, count: usize) -> (r: Result<serde_json::Value, IpcError>)
    requires
        count <= buffer@.len(),
    ensures
        r is Ok <==> parses_as_json(buffer@.subrange(0, count as int)),
        r matches Ok(v) ==> v == json_value_of(buffer@.subrange(0, count as int)),
        r matches Err(e) ==> e is InvalidJson,
        count == 0 ==> r is Err,
{
    let bytes = received(buffer, count);
    decode_json(bytes.as_slice())
}

/// Encodes a JSON value as the bytes of one message: `serde_json`'s text for
/// it, with no header or delimiter. An encoder failure would be reported as
/// invalid data on the channel.
pub fn encode_json(value: &serde_json::Value) -> (r: Result<Vec<u8>, IpcError>)
    ensures
        r is Ok,
        r matches Ok(bytes) ==> bytes@ == json_text_of(*value),
        r matches Err(e) ==> e is Io,
{
    match json_to_vec(value) {
        Ok(bytes) => Ok(bytes),
        Err(e) => Err(IpcError::Io(invalid_data(e))),
    }
}

} // verus!
