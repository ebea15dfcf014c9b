//! Whole relay calls, from the caller's request to the caller's result, with
//! the transport's part played by hand.

use http_relay::{conclude, prepare, Exchange, HttpRequest, RelayError};
use serde_json::Value;

fn object(key: &str, value: Value) -> Value {
    let mut map = serde_json::Map::new();
    map.insert(key.to_string(), value);
    Value::Object(map)
}

fn request(method: &str, url: &str) -> HttpRequest {
    HttpRequest { method: method.to_string(), url: url.to_string(), headers: None, body: None }
}

#[test]
fn get_answered_with_json_object() {
    let outbound = prepare(request("GET", "https://example.test/ok")).unwrap();
    assert_eq!(outbound.method, http::Method::GET);
    assert_eq!(outbound.url, "https://example.test/ok");
    assert!(outbound.headers.is_none());
    assert!(outbound.body.is_none());

    let response =
        conclude(Exchange::Received { status: 200, body: b"{\"a\":1}".to_vec() }).unwrap();
    assert_eq!(response.status(), 200);
    assert!(response.ok());
    assert_eq!(response.body(), &object("a", Value::from(1)));
    assert_eq!(response.into_parts(), (200, true, object("a", Value::from(1))));
}

#[test]
fn post_with_body_answered_created() {
    let mut asked = request("POST", "https://example.test/create");
    asked.body = Some(object("x", Value::from(1)));
    let outbound = prepare(asked).unwrap();
    assert_eq!(outbound.method, http::Method::POST);
    assert_eq!(outbound.url, "https://example.test/create");
    assert_eq!(outbound.body, Some(object("x", Value::from(1))));

    let response =
        conclude(Exchange::Received { status: 201, body: b"{\"id\":\"abc\"}".to_vec() }).unwrap();
    assert_eq!(response.status(), 201);
    assert!(response.ok());
    assert_eq!(response.body(), &object("id", Value::from("abc")));
}

#[test]
fn method_with_spaces_is_refused() {
    let error = prepare(request("G E T", "https://example.test/ok")).unwrap_err();
    assert!(error.message().starts_with("invalid method:"));
    assert_eq!(error.message(), "invalid method: invalid HTTP method");
    assert!(matches!(error, RelayError::InvalidMethod { .. }));
}

#[test]
fn unreachable_host_is_reported() {
    let cause = "error sending request for url (https://nowhere.test/)".to_string();
    let error = conclude(Exchange::SendFailed { cause: cause.clone() }).unwrap_err();
    assert!(error.message().starts_with("request failed:"));
    assert_eq!(error, RelayError::RequestFailed { detail: cause.clone() });
    assert_eq!(error.message(), format!("request failed: {}", cause));
}

#[test]
fn broken_body_is_reported() {
    let cause = "error decoding response body".to_string();
    let error = conclude(Exchange::ReadFailed { cause: cause.clone() }).unwrap_err();
    assert_eq!(error, RelayError::BodyRead { detail: cause });
    assert_eq!(error.message(), "failed to read response body: error decoding response body");
}

#[test]
fn refused_request_gives_nothing_to_send() {
    let mut asked = request("GET\n", "https://example.test/ok");
    asked.headers = Some(vec![("accept".to_string(), "*/*".to_string())]);
    asked.body = Some(Value::Null);
    assert!(prepare(asked).is_err());
}

#[test]
fn address_is_not_judged() {
    let outbound = prepare(request("GET", "not a url at all")).unwrap();
    assert_eq!(outbound.url, "not a url at all");
    let outbound = prepare(request("GET", "")).unwrap();
    assert_eq!(outbound.url, "");
}

#[test]
fn body_is_handed_on_untouched() {
    let body = Value::Array(vec![Value::Null, Value::Bool(true), Value::from("x"), Value::from(2)]);
    let mut asked = request("PUT", "https://example.test/items/1");
    asked.body = Some(body.clone());
    assert_eq!(prepare(asked).unwrap().body, Some(body));
}

#[test]
fn json_round_trip_through_the_wire() {
    let mut inner = serde_json::Map::new();
    inner.insert("name".to_string(), Value::from("relay"));
    inner.insert("tags".to_string(), Value::Array(vec![Value::from("a"), Value::from("b")]));
    inner.insert("count".to_string(), Value::from(3));
    inner.insert("none".to_string(), Value::Null);
    let sent = Value::Object(inner);
    let bytes = serde_json::to_vec(&sent).unwrap();
    let response = conclude(Exchange::Received { status: 200, body: bytes }).unwrap();
    assert_eq!(response.body(), &sent);
}
