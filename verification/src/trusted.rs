//! Everything this crate believes without proof: the outside types it holds,
//! the names it gives to what they contain, and the contracts it assumes of
//! the outside functions it calls.

use vstd::prelude::*;
use vstd::string::StringSliceAdditionalSpecFns;
use vstd::utf8::{decode_utf8, valid_utf8};
use http::header::{HeaderMap, HeaderName, HeaderValue, InvalidHeaderName, InvalidHeaderValue};
use http::method::{InvalidMethod, Method};
use serde_json::Value;
use crate::grammar::{canonical_name, is_field_name, is_field_value, is_method_token};
use crate::json::JsonModel;

verus! {

/// `http::Method`, a request method; opaque here.
#[verifier::external_type_specification]
#[verifier::external_body]
pub struct ExMethod(Method);

/// `http::method::InvalidMethod`, the error of `Method::from_bytes`.
#[verifier::external_type_specification]
#[verifier::external_body]
pub struct ExInvalidMethod(InvalidMethod);

/// `http::header::HeaderName`, a field name held in lower case.
#[verifier::external_type_specification]
#[verifier::external_body]
pub struct ExHeaderName(HeaderName);

/// `http::header::InvalidHeaderName`, the error of `HeaderName::from_bytes`.
#[verifier::external_type_specification]
#[verifier::external_body]
pub struct ExInvalidHeaderName(InvalidHeaderName);

/// `http::header::HeaderValue`, the bytes of a field value.
#[verifier::external_type_specification]
#[verifier::external_body]
pub struct ExHeaderValue(HeaderValue);

/// `http::header::InvalidHeaderValue`, the error of `HeaderValue::from_str`.
#[verifier::external_type_specification]
#[verifier::external_body]
pub struct ExInvalidHeaderValue(InvalidHeaderValue);

/// `http::HeaderMap`, a table from field names to one or more values each.
#[verifier::external_type_specification]
#[verifier::external_body]
#[verifier::reject_recursive_types(T)]
pub struct ExHeaderMap<T>(HeaderMap<T>);

/// `serde_json::Value`, any JSON value; opaque here.
#[verifier::external_type_specification]
#[verifier::external_body]
pub struct ExValue(Value);

/// The model of a header table: each name it holds, with that name's values.
pub type HeaderEntries = Map<Seq<u8>, Seq<Seq<u8>>>;

/// The bytes of the text that `Method::as_str` gives for a method.
pub uninterp spec fn method_bytes(m: Method) -> Seq<u8>;

/// The bytes of the text that `HeaderName::as_str` gives for a name.
pub uninterp spec fn header_name_bytes(n: HeaderName) -> Seq<u8>;

/// The bytes that `HeaderValue::as_bytes` gives for a value.
pub uninterp spec fn header_value_bytes(v: HeaderValue) -> Seq<u8>;

/// What a header table holds: for each name in it, the values stored under
/// that name, in the order `HeaderMap::get_all` walks them.
pub uninterp spec fn header_entries(m: HeaderMap<HeaderValue>) -> Map<Seq<u8>, Seq<Seq<u8>>>;

/// What a `serde_json::Value` holds.
pub uninterp spec fn json_model(v: Value) -> JsonModel;

/// What `serde_json::from_slice` makes of a byte string: the value it reads,
/// or nothing where it reports an error.
pub uninterp spec fn json_parse(bytes: Seq<u8>) -> Option<JsonModel>;

/// The text that `String::from_utf8_lossy` makes of a byte string.
pub uninterp spec fn utf8_lossy(bytes: Seq<u8>) -> Seq<char>;

/// Number of distinct names below which `HeaderMap::insert` never finds the
/// table full. The table refuses to grow past 32768 slots; it asks to grow
/// when it is three quarters full, or, after a run of colliding names, when it
/// is one fifth full. One fifth of 32768 is the smaller bound.
pub const HEADER_TABLE_ROOM: usize = 6554;

/// How `InvalidMethod` words itself.
pub const INVALID_METHOD_TEXT: &'static str = "invalid HTTP method";

/// How `InvalidHeaderName` words itself.
pub const INVALID_HEADER_NAME_TEXT: &'static str = "invalid HTTP header name";

/// How `InvalidHeaderValue` words itself.
pub const INVALID_HEADER_VALUE_TEXT: &'static str = "failed to parse header value";

/// `Method::from_bytes` accepts exactly the non-empty runs of token bytes,
/// and the method it returns spells as the input did.
pub assume_specification[ Method::from_bytes ](src: &[u8]) -> (r: Result<Method, InvalidMethod>)
    ensures
        r is Ok <==> is_method_token(src@),
        r matches Ok(m) ==> method_bytes(m) == src@,
;

/// `HeaderName::from_bytes` accepts exactly the tokens of at most 65535
/// bytes, and returns the name in lower case.
pub assume_specification[ HeaderName::from_bytes ](src: &[u8]) -> (r: Result<
    HeaderName,
    InvalidHeaderName,
>)
    ensures
        r is Ok <==> is_field_name(src@),
        r matches Ok(n) ==> header_name_bytes(n) == canonical_name(src@),
;

/// `HeaderValue::from_str` accepts exactly the strings whose bytes are all
/// tab, or space and above other than DEL, and keeps the bytes as they are.
pub assume_specification[ HeaderValue::from_str ](src: &str) -> (r: Result<
    HeaderValue,
    InvalidHeaderValue,
>)
    ensures
        r is Ok <==> is_field_value(src.spec_bytes()),
        r matches Ok(v) ==> header_value_bytes(v) == src.spec_bytes(),
;

/// `HeaderMap::new` returns a table that holds nothing.
pub assume_specification[ HeaderMap::<HeaderValue>::new ]() -> (m: HeaderMap<HeaderValue>)
    ensures
        header_entries(m) == HeaderEntries::empty(),
;

/// `HeaderMap::insert` puts `value` under `name` in place of every value the
/// table held under that name, and leaves the other names alone. It panics
/// only when the table is full, which `requires` rules out.
#[verifier::external_body]
pub(crate) fn header_map_insert(
    map: &mut HeaderMap<HeaderValue>,
    name: HeaderName,
    value: HeaderValue,
)
    requires
        header_entries(*old(map)).dom().finite(),
        header_entries(*old(map)).dom().len() < HEADER_TABLE_ROOM,
    ensures
        header_entries(*final(map)) == header_entries(*old(map)).insert(
            header_name_bytes(name),
            seq![header_value_bytes(value)],
        ),
{
    map.insert(name, value);
}

/// The `Display` text of `InvalidMethod`, which is the same for every value.
#[verifier::external_body]
pub(crate) fn invalid_method_detail(e: &InvalidMethod) -> (s: String)
    ensures
        s@ == INVALID_METHOD_TEXT@,
{
    e.to_string()
}

/// The `Display` text of `InvalidHeaderName`, the same for every value.
#[verifier::external_body]
pub(crate) fn invalid_header_name_detail(e: &InvalidHeaderName) -> (s: String)
    ensures
        s@ == INVALID_HEADER_NAME_TEXT@,
{
    e.to_string()
}

/// The `Display` text of `InvalidHeaderValue`, the same for every value.
#[verifier::external_body]
pub(crate) fn invalid_header_value_detail(e: &InvalidHeaderValue) -> (s: String)
    ensures
        s@ == INVALID_HEADER_VALUE_TEXT@,
{
    e.to_string()
}

/// `serde_json::from_slice::<Value>` reads a whole byte string as one JSON
/// value; the same bytes always give the same outcome. The error is dropped.
#[verifier::external_body]
pub(crate) fn json_from_slice(bytes: &[u8]) -> (r: Option<Value>)
    ensures
        r matches Some(v) ==> json_parse(bytes@) == Some(json_model(v)),
        r is None ==> json_parse(bytes@) is None,
{
    serde_json::from_slice::<Value>(bytes).ok()
}

/// `Value::from` on a `String` gives the JSON string with that text.
#[verifier::external_body]
pub(crate) fn json_from_string(text: String) -> (v: Value)
    ensures
        json_model(v) == JsonModel::Text(text@),
{
    Value::from(text)
}

/// `String::from_utf8_lossy` decodes UTF-8 and puts U+FFFD in place of each
/// invalid sequence; valid input comes out as the text it encodes.
#[verifier::external_body]
pub(crate) fn string_from_utf8_lossy(bytes: &[u8]) -> (s: String)
    ensures
        s@ == utf8_lossy(bytes@),
        valid_utf8(bytes@) ==> s@ == decode_utf8(bytes@),
{
    String::from_utf8_lossy(bytes).into_owned()
}

} // verus!
