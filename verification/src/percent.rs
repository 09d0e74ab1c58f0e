use std::string::FromUtf8Error;
use vstd::prelude::*;
use vstd::utf8::*;

verus! {

/// Whether `b` is an ASCII hexadecimal digit, in either case.
pub open spec fn is_hex_digit(b: u8) -> bool {
    ||| 0x30 <= b <= 0x39
    ||| 0x41 <= b <= 0x46
    ||| 0x61 <= b <= 0x66
}

/// The number that a hexadecimal digit stands for.
pub open spec fn hex_value(b: u8) -> int
    recommends
        is_hex_digit(b),
{
    if 0x30 <= b <= 0x39 {
        b - 0x30
    } else if 0x41 <= b <= 0x46 {
        b - 0x41 + 10
    } else {
        b - 0x61 + 10
    }
}

/// Whether `bytes` begins with an escape: a percent sign and two hexadecimal digits.
pub open spec fn starts_with_escape(bytes: Seq<u8>) -> bool {
    &&& bytes.len() >= 3
    &&& bytes[0] == 0x25
    &&& is_hex_digit(bytes[1])
    &&& is_hex_digit(bytes[2])
}

/// The bytes that percent-decoding makes of `bytes`: each escape becomes the
/// byte it names, and every other byte, a stray percent sign included, stays.
pub open spec fn unescape(bytes: Seq<u8>) -> Seq<u8>
    decreases bytes.len(),
{
    if bytes.len() == 0 {
        Seq::empty()
    } else if starts_with_escape(bytes) {
        seq![(16 * hex_value(bytes[1]) + hex_value(bytes[2])) as u8] + unescape(bytes.skip(3))
    } else {
        seq![bytes[0]] + unescape(bytes.skip(1))
    }
}

/// The text that percent-decoding makes of `raw`, or `None` where the decoded
/// bytes are not UTF-8.
pub open spec fn decoded(raw: Seq<char>) -> Option<Seq<char>> {
    let bytes = unescape(encode_utf8(raw));
    if valid_utf8(bytes) {
        Some(decode_utf8(bytes))
    } else {
        None
    }
}

/// Whether an escape stands at index `i` of `bytes`.
pub open spec fn escape_at(bytes: Seq<u8>, i: int) -> bool {
    &&& 0 <= i
    &&& i + 2 < bytes.len()
    &&& bytes[i] == 0x25
    &&& is_hex_digit(bytes[i + 1])
    &&& is_hex_digit(bytes[i + 2])
}

/// Whether `bytes` holds an escape anywhere.
pub open spec fn has_escape(bytes: Seq<u8>) -> bool {
    exists|i: int| escape_at(bytes, i)
}

/// Whether `c` is an ASCII hexadecimal digit, in either case.
pub open spec fn is_hex_char(c: char) -> bool {
    ||| '0' <= c <= '9'
    ||| 'A' <= c <= 'F'
    ||| 'a' <= c <= 'f'
}

/// Whether an escape stands at index `i` of `text`.
pub open spec fn escape_in_text(text: Seq<char>, i: int) -> bool {
    &&& 0 <= i
    &&& i + 2 < text.len()
    &&& text[i] == '%'
    &&& is_hex_char(text[i + 1])
    &&& is_hex_char(text[i + 2])
}

/// Bytes without an escape are left as they are.
pub proof fn lemma_unescape_plain(bytes: Seq<u8>)
    requires
        !has_escape(bytes),
    ensures
        unescape(bytes) == bytes,
    decreases bytes.len(),
{
    if bytes.len() > 0 {
        assert(!escape_at(bytes, 0));
        assert forall|i: int| !escape_at(bytes.skip(1), i) by {
            assert(!escape_at(bytes, i + 1));
        }
        lemma_unescape_plain(bytes.skip(1));
        assert(seq![bytes[0]] + bytes.skip(1) == bytes);
    }
}

/// Unescaping never makes bytes longer, and makes them shorter where they
/// hold an escape.
pub proof fn lemma_unescape_shrinks(bytes: Seq<u8>)
    ensures
        unescape(bytes).len() <= bytes.len(),
        has_escape(bytes) ==> unescape(bytes).len() < bytes.len(),
    decreases bytes.len(),
{
    if bytes.len() > 0 {
        if starts_with_escape(bytes) {
            lemma_unescape_shrinks(bytes.skip(3));
        } else {
            lemma_unescape_shrinks(bytes.skip(1));
            if has_escape(bytes) {
                let i = choose|i: int| escape_at(bytes, i);
                assert(escape_at(bytes.skip(1), i - 1));
            }
        }
    }
}

/// Decoding gives a text back unchanged exactly when the text holds no
/// escape: decoding twice is decoding once only on such texts.
pub proof fn lemma_decode_fixes_plain_text(text: Seq<char>)
    ensures
        decoded(text) == Some(text) <==> !has_escape(encode_utf8(text)),
{
    broadcast use {encode_utf8_valid_utf8, encode_utf8_decode_utf8, decode_utf8_encode_utf8};

    let bytes = encode_utf8(text);
    if has_escape(bytes) {
        lemma_unescape_shrinks(bytes);
        if decoded(text) == Some(text) {
            assert(encode_utf8(decode_utf8(unescape(bytes))) == unescape(bytes));
        }
    } else {
        lemma_unescape_plain(bytes);
    }
}

/// The same for ASCII text, where escapes can be looked for character by
/// character.
pub proof fn lemma_decode_fixes_plain_ascii(text: Seq<char>)
    requires
        is_ascii_chars(text),
    ensures
        decoded(text) == Some(text) <==> !exists|i: int| escape_in_text(text, i),
{
    broadcast use is_ascii_chars_encode_utf8;

    let bytes = encode_utf8(text);
    lemma_decode_fixes_plain_text(text);
    assert forall|i: int| escape_at(bytes, i) <==> escape_in_text(text, i) by {
        if 0 <= i && i + 2 < text.len() {
            lemma_ascii_byte(text[i]);
            lemma_ascii_byte(text[i + 1]);
            lemma_ascii_byte(text[i + 2]);
        }
    }
    if has_escape(bytes) {
        let i = choose|i: int| escape_at(bytes, i);
        assert(escape_in_text(text, i));
    }
    if exists|i: int| escape_in_text(text, i) {
        let i = choose|i: int| escape_in_text(text, i);
        assert(escape_at(bytes, i));
    }
}

/// An ASCII character and its byte agree on being a percent sign and on
/// being a hexadecimal digit.
proof fn lemma_ascii_byte(c: char)
    requires
        '\0' <= c <= '\u{7f}',
    ensures
        (c as u8 == 0x25) <==> c == '%',
        is_hex_digit(c as u8) <==> is_hex_char(c),
{
}

/// `std::string::FromUtf8Error`, the error of `urlencoding::decode`. Nothing
/// is assumed of it.
#[verifier::external_type_specification]
#[verifier::external_body]
pub struct ExFromUtf8Error(FromUtf8Error);

/// `urlencoding::decode`, with its borrowed-or-owned result made owned.
///
/// Trusted: the call succeeds exactly when the unescaped bytes of `raw` are
/// UTF-8, and then returns them as text. A `+` is not turned into a space, and
/// a percent sign that no two hexadecimal digits follow is kept.
#[verifier::external_body]
fn percent_decode(raw: &str) -> (outcome: Result<String, FromUtf8Error>)
    ensures
        outcome is Ok <==> decoded(raw@) is Some,
        outcome matches Ok(text) ==> decoded(raw@) == Some(text@),
{
    match urlencoding::decode(raw) {
        Ok(text) => Ok(text.into_owned()),
        Err(error) => Err(error),
    }
}

/// Percent-decodes `raw`; `None` where the decoded bytes are not UTF-8.
pub fn decode(raw: &str) -> (text: Option<String>)
    ensures
        text is Some <==> decoded(raw@) is Some,
        text matches Some(t) ==> decoded(raw@) == Some(t@),
{
    match percent_decode(raw) {
        Ok(text) => Some(text),
        Err(_) => None,
    }
}

} // verus!
