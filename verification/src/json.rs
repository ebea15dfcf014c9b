//! JSON values as this crate sees them, and the rule by which a response
//! body becomes one.

use vstd::prelude::*;
use vstd::utf8::{
    decode_utf8, encode_utf8, encode_utf8_decode_utf8, encode_utf8_valid_utf8,
    is_ascii_chars_encode_utf8, valid_utf8,
};
use serde_json::Value;
use crate::trusted::{
    json_from_slice, json_from_string, json_model, json_parse, string_from_utf8_lossy, utf8_lossy,
};

verus! {

/// The mathematical model of a JSON value.
pub enum JsonModel {
    Null,
    Bool(bool),
    /// A number, by the literal it is written with.
    Number(Seq<char>),
    /// A string, by its characters.
    Text(Seq<char>),
    Array(Seq<JsonModel>),
    /// An object; a key occurs once and the order of keys does not count.
    Object(Map<Seq<char>, JsonModel>),
}

/// A byte string read as text: what it encodes where it is valid UTF-8, and
/// otherwise that text with each invalid sequence replaced.
pub open spec fn lenient_text(raw: Seq<u8>) -> Seq<char> {
    if valid_utf8(raw) {
        decode_utf8(raw)
    } else {
        utf8_lossy(raw)
    }
}

/// The body that stands for the bytes `raw` of a response: the JSON value
/// they spell where they spell one, and else their text as a JSON string.
pub open spec fn decoded(raw: Seq<u8>) -> JsonModel {
    match json_parse(raw) {
        Some(value) => value,
        None => JsonModel::Text(lenient_text(raw)),
    }
}

/// Picks the body once the bytes have been put to the JSON reader: the value
/// it read where it read one, and where it did not, the text of the bytes as
/// a JSON string.
pub fn body_from(parsed: Option<Value>, raw: &[u8]) -> (body: Value)
    ensures
        match parsed {
            Some(value) => body == value,
            None => json_model(body) == JsonModel::Text(lenient_text(raw@)),
        },
{
    match parsed {
        Some(value) => value,
        None => json_from_string(string_from_utf8_lossy(raw)),
    }
}

/// Decodes a response body. Bytes that are JSON give that JSON value; any
/// other bytes give a JSON string, so no body is ever refused.
pub fn decode_body(raw: &[u8]) -> (body: Value)
    ensures
        json_model(body) == decoded(raw@),
{
    body_from(json_from_slice(raw), raw)
}

/// A body that is JSON comes back as the value it spells, whatever else
/// the bytes could be read as.
pub proof fn json_body_is_kept(raw: Seq<u8>, value: JsonModel)
    requires
        json_parse(raw) == Some(value),
    ensures
        decoded(raw) == value,
{
}

/// A body that is not JSON comes back as a JSON string: of the text the
/// bytes encode where they are valid UTF-8, and of that text with every
/// invalid sequence replaced where they are not.
pub proof fn other_body_becomes_text(raw: Seq<u8>)
    requires
        json_parse(raw) is None,
    ensures
        decoded(raw) == JsonModel::Text(lenient_text(raw)),
        valid_utf8(raw) ==> decoded(raw) == JsonModel::Text(decode_utf8(raw)),
        !valid_utf8(raw) ==> decoded(raw) == JsonModel::Text(utf8_lossy(raw)),
{
}

/// Bytes that are all ASCII read as the same characters, one for one.
pub proof fn ascii_text_is_kept(raw: Seq<u8>)
    requires
        forall|i: int| 0 <= i < raw.len() ==> raw[i] < 0x80,
    ensures
        lenient_text(raw) == Seq::new(raw.len(), |i: int| raw[i] as char),
{
    let text = Seq::new(raw.len(), |i: int| raw[i] as char);
    is_ascii_chars_encode_utf8(text);
    assert(encode_utf8(text) =~= raw);
    encode_utf8_valid_utf8(text);
    encode_utf8_decode_utf8(text);
}

} // verus!
