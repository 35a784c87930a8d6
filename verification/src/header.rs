//! The header collection of the HTTP transport, as far as this library fills it.
//!
//! The transport's types stay opaque to the verifier. What the library needs to
//! know of them is given by two names, `header_map_values` and
//! `header_value_bytes`, and by the contracts of the four functions that call
//! the transport: `new_header_map`, `parse_header_value`, `insert_header` and
//! `describe_invalid_header_value`. These contracts are believed, not proved;
//! each says in its comment what it takes on trust. Everything else in this
//! file is proved.

use reqwest::header::{HeaderMap, HeaderValue, InvalidHeaderValue};
use vstd::prelude::*;
use vstd::utf8::*;

verus! {

#[verifier::external_type_specification]
#[verifier::external_body]
#[verifier::reject_recursive_types(T)]
pub struct ExHeaderMap<T>(reqwest::header::HeaderMap<T>);

#[verifier::external_type_specification]
#[verifier::external_body]
pub struct ExHeaderValue(reqwest::header::HeaderValue);

#[verifier::external_type_specification]
#[verifier::external_body]
pub struct ExInvalidHeaderValue(reqwest::header::InvalidHeaderValue);

/// The bytes that a header value holds.
pub uninterp spec fn header_value_bytes(value: HeaderValue) -> Seq<u8>;

/// What a header map holds: for each header name, in its stored (lower case)
/// form, the values kept under it, first to last.
pub uninterp spec fn header_map_values(headers: HeaderMap<HeaderValue>) -> Map<Seq<char>, Seq<Seq<u8>>>;

/// What an empty header map holds.
pub open spec fn no_headers() -> Map<Seq<char>, Seq<Seq<u8>>> {
    Map::empty()
}

/// A byte that may stand in a header value: anything but a control character,
/// the horizontal tab excepted.
pub open spec fn is_header_value_byte(b: u8) -> bool {
    (b >= 32 && b != 127) || b == 9
}

/// A text that can be sent as a header value: every byte of its UTF-8 form may
/// stand in one.
pub open spec fn is_header_value(text: Seq<char>) -> bool {
    forall|i: int|
        0 <= i < encode_utf8(text).len() ==> is_header_value_byte(#[trigger] encode_utf8(text)[i])
}

/// A character that a header value can hold: anything but a control character,
/// the horizontal tab excepted.
pub open spec fn is_header_value_char(c: char) -> bool {
    (c >= ' ' && c != '\u{7f}') || c == '\t'
}

/// A text without control characters, the horizontal tab aside.
pub open spec fn is_free_of_controls(text: Seq<char>) -> bool {
    forall|i: int| 0 <= i < text.len() ==> is_header_value_char(#[trigger] text[i])
}

/// The bytes of one character may all stand in a header value exactly when the
/// character is one that a header value can hold.
proof fn lemma_header_value_scalar(c: char)
    ensures
        is_header_value_char(c) <==> forall|i: int|
            0 <= i < encode_scalar(c as u32).len() ==> is_header_value_byte(
                #[trigger] encode_scalar(c as u32)[i],
            ),
        encode_scalar(c as u32).len() > 0,
{
    let v = c as u32;
    char_is_scalar(c);
    let bytes = encode_scalar(v);
    if has_width_1_encoding(v) {
        assert(leading_byte_width_1(v) == v) by (bit_vector)
            requires
                0 <= v <= 0x7F,
        ;
        assert(bytes[0] == v);
    } else {
        assert(leading_byte_width_2(v) >= 0x80 && leading_byte_width_3(v) >= 0x80
            && leading_byte_width_4(v) >= 0x80 && last_continuation_byte(v) >= 0x80
            && second_last_continuation_byte(v) >= 0x80 && third_last_continuation_byte(v)
            >= 0x80) by (bit_vector);
    }
}

/// A text can be sent as a header value exactly when it holds no control
/// character other than the horizontal tab.
pub proof fn lemma_header_value_by_chars(text: Seq<char>)
    ensures
        is_header_value(text) <==> is_free_of_controls(text),
    decreases text.len(),
{
    if text.len() > 0 {
        let first = encode_scalar(text[0] as u32);
        let rest = encode_utf8(text.drop_first());
        let all = encode_utf8(text);
        assert(all == first + rest);
        lemma_header_value_scalar(text[0]);
        lemma_header_value_by_chars(text.drop_first());
        if is_header_value(text) {
            assert forall|i: int| 0 <= i < first.len() implies is_header_value_byte(
                #[trigger] first[i],
            ) by {
                assert(all[i] == first[i]);
            }
            assert forall|i: int| 0 <= i < rest.len() implies is_header_value_byte(
                #[trigger] rest[i],
            ) by {
                assert(all[first.len() + i] == rest[i]);
            }
            assert forall|i: int| 0 <= i < text.len() implies is_header_value_char(
                #[trigger] text[i],
            ) by {
                if i > 0 {
                    assert(text.drop_first()[i - 1] == text[i]);
                }
            }
        }
        if is_free_of_controls(text) {
            assert forall|i: int| 0 <= i < text.drop_first().len() implies is_header_value_char(
                #[trigger] text.drop_first()[i],
            ) by {
                assert(text.drop_first()[i] == text[i + 1]);
            }
            assert(is_header_value_char(text[0]));
            assert forall|i: int| 0 <= i < all.len() implies is_header_value_byte(
                #[trigger] all[i],
            ) by {
                if i < first.len() {
                    assert(all[i] == first[i]);
                } else {
                    assert(all[i] == rest[i - first.len()]);
                }
            }
        }
    }
}

/// A character that may stand in a header name: an ASCII letter or digit, or one
/// of the punctuation marks of an HTTP token.
pub open spec fn is_header_name_char(c: char) -> bool {
    ||| 'a' <= c <= 'z'
    ||| 'A' <= c <= 'Z'
    ||| '0' <= c <= '9'
    ||| c == '!'
    ||| c == '#'
    ||| c == '$'
    ||| c == '%'
    ||| c == '&'
    ||| c == '\''
    ||| c == '*'
    ||| c == '+'
    ||| c == '-'
    ||| c == '.'
    ||| c == '^'
    ||| c == '_'
    ||| c == '`'
    ||| c == '|'
    ||| c == '~'
}

/// The longest header name that this library hands to the transport.
pub const MAX_HEADER_NAME_LEN: usize = 64;

/// A header name as the library writes it: between one and
/// `MAX_HEADER_NAME_LEN` characters, each of which may stand in a header name.
pub open spec fn is_header_name(name: Seq<char>) -> bool {
    &&& 0 < name.len() <= MAX_HEADER_NAME_LEN
    &&& forall|i: int| 0 <= i < name.len() ==> is_header_name_char(#[trigger] name[i])
}

/// The lower-case form of an ASCII letter; any other character is left as it is.
pub open spec fn ascii_lower(c: char) -> char {
    if 'A' <= c <= 'Z' {
        ((c as u8) + 32) as char
    } else {
        c
    }
}

/// The form under which a header map stores a name: header names do not
/// distinguish case, and the map keeps them in lower case.
pub open spec fn header_name_key(name: Seq<char>) -> Seq<char> {
    Seq::new(name.len(), |i: int| ascii_lower(name[i]))
}

/// The most names a header map may hold when this library adds one more.
pub const MAX_HEADER_NAMES: usize = 1024;

/// Calls `HeaderMap::new` of the transport. Believed: the map it makes holds
/// nothing.
#[verifier::external_body]
pub(crate) fn new_header_map() -> (headers: HeaderMap)
    ensures
        header_map_values(headers) == no_headers(),
{
    HeaderMap::new()
}

/// Calls `HeaderValue::from_str` of the transport. Believed: it accepts a text
/// exactly when every byte of it may stand in a header value, and the value it
/// makes holds the bytes of the text unchanged.
#[verifier::external_body]
pub(crate) fn parse_header_value(text: &str) -> (parsed: Result<HeaderValue, InvalidHeaderValue>)
    ensures
        parsed is Ok <==> is_header_value(text@),
        parsed matches Ok(value) ==> header_value_bytes(value) == encode_utf8(text@),
{
    HeaderValue::from_str(text)
}

/// Calls `HeaderMap::insert` of the transport with a name written in the source.
/// Believed: for a name of at most `MAX_HEADER_NAME_LEN` token characters, and a
/// map that holds fewer than `MAX_HEADER_NAMES` names (far below the size at
/// which the map refuses to grow), the call returns, and afterwards the map
/// holds under the name's lower-case form the given value alone, and under
/// every other name what it held before.
#[verifier::external_body]
pub(crate) fn insert_header(headers: &mut HeaderMap, name: &'static str, value: HeaderValue)
    requires
        is_header_name(name@),
        header_map_values(*old(headers)).dom().finite(),
        header_map_values(*old(headers)).dom().len() < MAX_HEADER_NAMES,
    ensures
        header_map_values(*final(headers)) == header_map_values(*old(headers)).insert(
            header_name_key(name@),
            seq![header_value_bytes(value)],
        ),
{
    headers.insert(name, value);
}

/// What the transport says of a text that it does not accept as a header value.
pub open spec fn invalid_header_value_message() -> Seq<char> {
    "failed to parse header value"@
}

/// Calls `to_string` on the transport's `InvalidHeaderValue`, which writes the
/// error as its `Display` impl does. Believed: the text is the one fixed
/// message that this impl writes.
#[verifier::external_body]
pub(crate) fn describe_invalid_header_value(error: &InvalidHeaderValue) -> (message: String)
    ensures
        message@ == invalid_header_value_message(),
{
    error.to_string()
}

/// Whether `text` can be sent as a header value.
pub fn can_be_header_value(text: &str) -> (ok: bool)
    ensures
        ok == is_header_value(text@),
{
    let bytes = text.as_bytes();
    let mut i: usize = 0;
    while i < bytes.len()
        invariant
            i <= bytes.len(),
            bytes@ == encode_utf8(text@),
            forall|j: int| 0 <= j < i ==> is_header_value_byte(#[trigger] bytes@[j]),
        decreases bytes.len() - i,
    {
        let b: u8 = bytes[i];
        if !((b >= 32 && b != 127) || b == 9) {
            return false;
        }
        i += 1;
    }
    true
}

} // verus!
