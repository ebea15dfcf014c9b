//! Turning what came back into the caller's response.

use http_relay::{body_from, conclude, decode_body, ErrorKind, Exchange, HttpResponse, RelayError};
use serde_json::Value;

fn received(status: u16, body: &[u8]) -> Exchange {
    Exchange::Received { status, body: body.to_vec() }
}

#[test]
fn ok_follows_the_status() {
    for (status, ok) in [
        (100, false),
        (199, false),
        (200, true),
        (201, true),
        (204, true),
        (299, true),
        (300, false),
        (304, false),
        (404, false),
        (500, false),
        (599, false),
    ] {
        let response = conclude(received(status, b"null")).unwrap();
        assert_eq!(response.status(), status);
        assert_eq!(response.ok(), ok, "status {}", status);
        assert_eq!(response.ok(), (200..=299).contains(&response.status()));
    }
}

#[test]
fn every_status_is_answered() {
    for status in [0u16, 1, 99, 600, 999, u16::MAX] {
        let response = HttpResponse::new(status, Value::Null);
        assert_eq!(response.status(), status);
        assert!(!response.ok());
        assert_eq!(response.body(), &Value::Null);
    }
}

#[test]
fn json_bodies_are_parsed() {
    assert_eq!(decode_body(b"null"), Value::Null);
    assert_eq!(decode_body(b"true"), Value::Bool(true));
    assert_eq!(decode_body(b"12"), Value::from(12));
    assert_eq!(decode_body(b"-3"), Value::from(-3));
    assert_eq!(decode_body(b"\"hello\""), Value::from("hello"));
    assert_eq!(decode_body(b"[1, 2]"), Value::Array(vec![Value::from(1), Value::from(2)]));
    assert_eq!(decode_body(b" {} \n"), Value::Object(serde_json::Map::new()));
}

#[test]
fn plain_text_body_becomes_json_string() {
    let response = conclude(received(200, b"hello")).unwrap();
    assert_eq!(response.body(), &Value::String("hello".to_string()));
    assert_eq!(decode_body(b"<html></html>"), Value::from("<html></html>"));
    assert_eq!(decode_body(b"{\"a\":"), Value::from("{\"a\":"));
    assert_eq!(decode_body(b"1 2"), Value::from("1 2"));
    assert_eq!(decode_body("señor".as_bytes()), Value::from("señor"));
}

#[test]
fn empty_body_becomes_empty_string() {
    let response = conclude(received(204, b"")).unwrap();
    assert_eq!(response.status(), 204);
    assert!(response.ok());
    assert_eq!(response.body(), &Value::String(String::new()));
}

#[test]
fn invalid_utf8_is_replaced_not_refused() {
    let response = conclude(received(200, &[0x68, 0x69, 0xff, 0x21])).unwrap();
    assert_eq!(response.body(), &Value::String("hi\u{fffd}!".to_string()));
    assert_eq!(decode_body(&[0xc3]), Value::from("\u{fffd}"));
    assert_eq!(decode_body(&[0xe2, 0x82, 0x41]), Value::from("\u{fffd}A"));
    assert_eq!(decode_body(&[b'"', 0xff, b'"']), Value::from("\"\u{fffd}\""));
}

#[test]
fn body_follows_the_reading() {
    assert_eq!(body_from(Some(Value::from(7)), b"ignored"), Value::from(7));
    assert_eq!(body_from(Some(Value::Null), b"\xff"), Value::Null);
    assert_eq!(body_from(None, b"7"), Value::from("7"));
    assert_eq!(body_from(None, b"caf\xc3\xa9"), Value::from("café"));
    assert_eq!(body_from(None, b"\xff"), Value::from("\u{fffd}"));
}

#[test]
fn failure_messages_by_variant() {
    let cases = [
        (RelayError::InvalidMethod { detail: "d".to_string() }, "invalid method: d"),
        (
            RelayError::InvalidHeaderName { key: "K".to_string(), detail: "d".to_string() },
            "invalid header name K: d",
        ),
        (
            RelayError::InvalidHeaderValue { key: "K".to_string(), detail: "d".to_string() },
            "invalid header value for K: d",
        ),
        (RelayError::RequestFailed { detail: "d".to_string() }, "request failed: d"),
        (RelayError::BodyRead { detail: "d".to_string() }, "failed to read response body: d"),
    ];
    for (error, message) in cases {
        assert_eq!(error.message(), message);
    }
    let bare = RelayError::InvalidHeaderName { key: String::new(), detail: String::new() };
    assert_eq!(bare.message(), "invalid header name : ");
}

#[test]
fn failures_by_kind() {
    assert_eq!(RelayError::InvalidMethod { detail: String::new() }.kind(), ErrorKind::Validation);
    assert_eq!(
        RelayError::InvalidHeaderName { key: String::new(), detail: String::new() }.kind(),
        ErrorKind::Validation
    );
    assert_eq!(
        RelayError::InvalidHeaderValue { key: String::new(), detail: String::new() }.kind(),
        ErrorKind::Validation
    );
    assert_eq!(RelayError::RequestFailed { detail: String::new() }.kind(), ErrorKind::Network);
    assert_eq!(RelayError::BodyRead { detail: String::new() }.kind(), ErrorKind::Network);
}
