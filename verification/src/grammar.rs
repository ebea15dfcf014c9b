//! The parts of the HTTP grammar (RFC 9110) that a request is checked against:
//! method tokens, field names and field values. Each rule is stated twice,
//! over the characters of a string and over the bytes of its UTF-8 encoding,
//! and the two statements are proved to agree.

use vstd::prelude::*;
use vstd::utf8::{encode_scalar, encode_utf8};

verus! {

/// Longest field name, in bytes, that a header table can index.
pub const MAX_FIELD_NAME_LEN: usize = 65535;

/// A `tchar`: a letter, a digit, or one of ``! # $ % & ' * + - . ^ _ ` | ~``.
pub open spec fn is_token_byte(b: u8) -> bool {
    ||| 0x30 <= b <= 0x39  // 0-9
    ||| 0x41 <= b <= 0x5a  // A-Z
    ||| 0x61 <= b <= 0x7a  // a-z
    ||| b == 0x21  // !
    ||| 0x23 <= b <= 0x27  // # $ % & '
    ||| b == 0x2a  // *
    ||| b == 0x2b  // +
    ||| b == 0x2d  // -
    ||| b == 0x2e  // .
    ||| b == 0x5e  // ^
    ||| b == 0x5f  // _
    ||| b == 0x60  // `
    ||| b == 0x7c  // |
    ||| b == 0x7e  // ~
}

/// A byte that may stand in a field value: horizontal tab, or anything from
/// space upwards except DEL.
pub open spec fn is_value_byte(b: u8) -> bool {
    (b >= 0x20 && b != 0x7f) || b == 0x09
}

/// A method is a non-empty run of `tchar`s; case is significant.
pub open spec fn is_method_token(s: Seq<u8>) -> bool {
    &&& s.len() > 0
    &&& forall|i: int| 0 <= i < s.len() ==> is_token_byte(#[trigger] s[i])
}

/// A field name is a token of at most [`MAX_FIELD_NAME_LEN`] bytes.
pub open spec fn is_field_name(s: Seq<u8>) -> bool {
    &&& 0 < s.len() <= MAX_FIELD_NAME_LEN
    &&& forall|i: int| 0 <= i < s.len() ==> is_token_byte(#[trigger] s[i])
}

/// A field value holds no control character other than horizontal tab.
pub open spec fn is_field_value(s: Seq<u8>) -> bool {
    forall|i: int| 0 <= i < s.len() ==> is_value_byte(#[trigger] s[i])
}

/// ASCII lower-casing of one byte.
pub open spec fn lower_byte(b: u8) -> u8 {
    if 0x41 <= b <= 0x5a {
        (b + 32) as u8
    } else {
        b
    }
}

/// Field names compare without regard to case, so a name is kept lower-cased.
pub open spec fn canonical_name(s: Seq<u8>) -> Seq<u8> {
    Seq::new(s.len(), |i: int| lower_byte(s[i]))
}

/// A character that is a `tchar`: an ASCII character whose byte is one.
pub open spec fn is_token_char(c: char) -> bool {
    c <= '\u{7f}' && is_token_byte(c as u8)
}

/// A character that may stand in a field value: anything but the ASCII
/// control characters, of which only horizontal tab is let through.
pub open spec fn is_value_char(c: char) -> bool {
    (c >= ' ' && c != '\u{7f}') || c == '\t'
}

/// A string that is a method: not empty, and token characters only.
pub open spec fn is_method_text(text: Seq<char>) -> bool {
    &&& text.len() > 0
    &&& forall|i: int| 0 <= i < text.len() ==> is_token_char(#[trigger] text[i])
}

/// A string that is a field name: between one and [`MAX_FIELD_NAME_LEN`]
/// token characters.
pub open spec fn is_field_name_text(text: Seq<char>) -> bool {
    &&& 0 < text.len() <= MAX_FIELD_NAME_LEN
    &&& forall|i: int| 0 <= i < text.len() ==> is_token_char(#[trigger] text[i])
}

/// A string that is a field value: value characters only; it may be empty.
pub open spec fn is_field_value_text(text: Seq<char>) -> bool {
    forall|i: int| 0 <= i < text.len() ==> is_value_char(#[trigger] text[i])
}

/// One character and its encoding: the character is a token character, or
/// a value character, exactly when every byte of its encoding is a token
/// byte, or a value byte; and a token character has a single byte.
proof fn encoding_of_one_char(c: char)
    ensures
        encode_scalar(c as u32).len() >= 1,
        is_token_char(c) ==> encode_scalar(c as u32).len() == 1,
        is_token_char(c) <==> forall|k: int|
            0 <= k < encode_scalar(c as u32).len() ==> is_token_byte(
                #[trigger] encode_scalar(c as u32)[k],
            ),
        is_value_char(c) <==> forall|k: int|
            0 <= k < encode_scalar(c as u32).len() ==> is_value_byte(
                #[trigger] encode_scalar(c as u32)[k],
            ),
{
    let v: u32 = c as u32;
    let bytes = encode_scalar(v);
    if v <= 0x7f {
        assert((v & 0x7f) as u8 == v as u8) by (bit_vector)
            requires
                v <= 0x7f,
        ;
        assert(bytes[0] == c as u8);
    } else {
        // Every leading byte and every continuation byte has its top bit set.
        assert(0xC0u8 | ((v >> 6) & 0x1F) as u8 >= 0x80) by (bit_vector);
        assert(0xE0u8 | ((v >> 12) & 0x0F) as u8 >= 0x80) by (bit_vector);
        assert(0xF0u8 | ((v >> 18) & 0x7) as u8 >= 0x80) by (bit_vector);
        assert(0x80u8 | (v & 0x3F) as u8 >= 0x80) by (bit_vector);
        assert(0x80u8 | ((v >> 6) & 0x3F) as u8 >= 0x80) by (bit_vector);
        assert(0x80u8 | ((v >> 12) & 0x3F) as u8 >= 0x80) by (bit_vector);
    }
}

/// The bytes of a string are all token bytes exactly when its characters are
/// all token characters, and then there is one byte to each character.
proof fn token_bytes_and_chars(text: Seq<char>)
    ensures
        (forall|i: int| 0 <= i < text.len() ==> is_token_char(#[trigger] text[i])) <==> (forall|
            k: int,
        | 0 <= k < encode_utf8(text).len() ==> is_token_byte(#[trigger] encode_utf8(text)[k])),
        (forall|i: int| 0 <= i < text.len() ==> is_token_char(#[trigger] text[i])) ==> encode_utf8(
            text,
        ).len() == text.len(),
        text.len() > 0 <==> encode_utf8(text).len() > 0,
    decreases text.len(),
{
    if text.len() > 0 {
        let head = encode_scalar(text[0] as u32);
        let rest = text.drop_first();
        let tail = encode_utf8(rest);
        let bytes = encode_utf8(text);
        assert(bytes == head + tail);
        encoding_of_one_char(text[0]);
        token_bytes_and_chars(rest);
        if forall|k: int| 0 <= k < bytes.len() ==> is_token_byte(#[trigger] bytes[k]) {
            assert forall|k: int| 0 <= k < head.len() implies is_token_byte(#[trigger] head[k]) by {
                assert(head[k] == bytes[k]);
            }
            assert forall|k: int| 0 <= k < tail.len() implies is_token_byte(#[trigger] tail[k]) by {
                assert(tail[k] == bytes[k + head.len()]);
            }
            assert forall|i: int| 0 <= i < text.len() implies is_token_char(#[trigger] text[i]) by {
                if i >= 1 {
                    assert(text[i] == rest[i - 1]);
                }
            }
        }
    }
}

/// The bytes of a string are all value bytes exactly when its characters are
/// all value characters.
proof fn value_bytes_and_chars(text: Seq<char>)
    ensures
        is_field_value_text(text) <==> is_field_value(encode_utf8(text)),
    decreases text.len(),
{
    if text.len() > 0 {
        let head = encode_scalar(text[0] as u32);
        let rest = text.drop_first();
        let tail = encode_utf8(rest);
        let bytes = encode_utf8(text);
        assert(bytes == head + tail);
        encoding_of_one_char(text[0]);
        value_bytes_and_chars(rest);
        if is_field_value(bytes) {
            assert forall|k: int| 0 <= k < head.len() implies is_value_byte(#[trigger] head[k]) by {
                assert(head[k] == bytes[k]);
            }
            assert forall|k: int| 0 <= k < tail.len() implies is_value_byte(#[trigger] tail[k]) by {
                assert(tail[k] == bytes[k + head.len()]);
            }
            assert forall|i: int| 0 <= i < text.len() implies is_value_char(#[trigger] text[i]) by {
                if i >= 1 {
                    assert(text[i] == rest[i - 1]);
                }
            }
        }
    }
}

/// A string is a method exactly when its bytes are a method token.
pub proof fn method_text_is_its_bytes(text: Seq<char>)
    ensures
        is_method_text(text) <==> is_method_token(encode_utf8(text)),
{
    token_bytes_and_chars(text);
}

/// A string is a field name exactly when its bytes are one.
pub proof fn field_name_text_is_its_bytes(text: Seq<char>)
    ensures
        is_field_name_text(text) <==> is_field_name(encode_utf8(text)),
{
    token_bytes_and_chars(text);
}

/// A string is a field value exactly when its bytes are one.
pub proof fn field_value_text_is_its_bytes(text: Seq<char>)
    ensures
        is_field_value_text(text) <==> is_field_value(encode_utf8(text)),
{
    value_bytes_and_chars(text);
}

/// A space, a control character or a character outside ASCII is no token
/// character.
pub proof fn space_or_control_is_no_token_char(c: char)
    requires
        c <= ' ' || c >= '\u{7f}',
    ensures
        !is_token_char(c),
{
}

/// No method and no field name holds a space, a control character or a
/// character outside ASCII.
pub proof fn token_has_no_space_or_control(text: Seq<char>, i: int)
    requires
        0 <= i < text.len(),
        text[i] <= ' ' || text[i] >= '\u{7f}',
    ensures
        !is_method_text(text),
        !is_field_name_text(text),
{
    space_or_control_is_no_token_char(text[i]);
}

/// Lower-casing keeps a name a name, and does nothing to a name that is
/// already lower-cased.
pub proof fn canonical_name_is_stable(s: Seq<u8>)
    ensures
        canonical_name(s).len() == s.len(),
        is_field_name(s) ==> is_field_name(canonical_name(s)),
        canonical_name(canonical_name(s)) == canonical_name(s),
{
}

} // verus!
