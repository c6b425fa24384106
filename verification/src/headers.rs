//! The headers a client attaches to every request it sends.
//!
//! The headers live in a `reqwest::header::HeaderMap`, which Verus cannot look
//! into. Its contents are named by `header_entries`; the trusted functions of
//! this module say what each operation of the map does to them.

use vstd::prelude::*;
use vstd::utf8::{encode_scalar, encode_utf8};
use reqwest::header::{HeaderMap, HeaderValue};

verus! {

/// Name under which a credential travels, as the map spells it.
pub const AUTHORIZATION: &'static str = "authorization";

/// `reqwest::header::HeaderMap`, taken as it is: Verus sees nothing inside.
#[verifier::external_type_specification]
#[verifier::external_body]
#[verifier::reject_recursive_types(T)]
pub struct ExHeaderMap<T>(reqwest::header::HeaderMap<T>);

/// `reqwest::header::HeaderValue`, taken as it is: Verus sees nothing inside.
#[verifier::external_type_specification]
#[verifier::external_body]
pub struct ExHeaderValue(reqwest::header::HeaderValue);

/// The bytes that a header value holds.
pub uninterp spec fn header_value_bytes(value: HeaderValue) -> Seq<u8>;

/// Whether a header value is marked as sensitive, so that it is kept out of
/// logs and debug output.
pub uninterp spec fn header_value_sensitive(value: HeaderValue) -> bool;

/// What a header map holds: for each header name, in lower case, the values
/// stored under it, each as its bytes and its sensitive mark.
pub uninterp spec fn header_entries(headers: HeaderMap) -> Map<Seq<char>, Seq<(Seq<u8>, bool)>>;

/// A character that may stand in a header value: anything but the control
/// characters, with the horizontal tab allowed.
pub open spec fn header_value_char(c: char) -> bool {
    (c >= ' ' && c != '\u{7f}') || c == '\t'
}

/// A text that can be sent as a header value: it holds no control character
/// but the tab. Characters beyond ASCII are all allowed.
pub open spec fn valid_header_value(text: Seq<char>) -> bool {
    forall|i: int| 0 <= i < text.len() ==> header_value_char(#[trigger] text[i])
}

/// A byte that may stand in a header value.
pub open spec fn header_value_byte(b: u8) -> bool {
    (b >= 32 && b != 127) || b == 9
}

/// Bytes that can be sent as a header value: each of them is a
/// `header_value_byte`.
pub open spec fn header_value_bytes_accepted(bytes: Seq<u8>) -> bool {
    forall|i: int| 0 <= i < bytes.len() ==> header_value_byte(#[trigger] bytes[i])
}

/// The contents of a header map with `count` header names.
pub open spec fn holds_names(entries: Map<Seq<char>, Seq<(Seq<u8>, bool)>>, count: nat) -> bool {
    entries.dom().finite() && entries.dom().len() == count
}

/// The contents of a header map that holds nothing.
pub open spec fn no_headers() -> Map<Seq<char>, Seq<(Seq<u8>, bool)>> {
    Map::empty()
}

/// The headers of a client that carries `token` as its credential: the one
/// header `authorization`, with the token's bytes as its only value, marked
/// sensitive.
pub open spec fn authorization_only(token: Seq<char>) -> Map<Seq<char>, Seq<(Seq<u8>, bool)>> {
    no_headers().insert(AUTHORIZATION@, seq![(encode_utf8(token), true)])
}

/// The bytes of one character are fit for a header value exactly when the
/// character is.
proof fn lemma_scalar_bytes(c: char)
    ensures
        encode_scalar(c as u32).len() > 0,
        forall|i: int|
            0 <= i < encode_scalar(c as u32).len() ==> (header_value_byte(
                #[trigger] encode_scalar(c as u32)[i],
            ) <==> header_value_char(c)),
{
    let v = c as u32;
    assert(v <= 0x7f ==> (v & 0x7f) as u8 == v) by (bit_vector);
    assert((0xc0u8 | ((v >> 6) & 0x1f) as u8) >= 0x80) by (bit_vector);
    assert((0xe0u8 | ((v >> 12) & 0x0f) as u8) >= 0x80) by (bit_vector);
    assert((0xf0u8 | ((v >> 18) & 0x07) as u8) >= 0x80) by (bit_vector);
    assert((0x80u8 | (v & 0x3f) as u8) >= 0x80) by (bit_vector);
    assert((0x80u8 | ((v >> 6) & 0x3f) as u8) >= 0x80) by (bit_vector);
    assert((0x80u8 | ((v >> 12) & 0x3f) as u8) >= 0x80) by (bit_vector);
}

/// A text can be sent as a header value exactly when the bytes of its UTF-8
/// form can: the bytes of a character beyond ASCII are all accepted, and an
/// ASCII character is its own byte.
pub proof fn lemma_valid_header_value_by_bytes(text: Seq<char>)
    ensures
        header_value_bytes_accepted(encode_utf8(text)) <==> valid_header_value(text),
    decreases text.len(),
{
    if text.len() > 0 {
        let bytes = encode_utf8(text);
        let head = encode_scalar(text[0] as u32);
        let rest = text.drop_first();
        let tail = encode_utf8(rest);
        lemma_scalar_bytes(text[0]);
        lemma_valid_header_value_by_bytes(rest);
        assert(bytes == head + tail);
        if header_value_bytes_accepted(bytes) {
            assert(bytes[0] == head[0]);
            assert forall|j: int| 0 <= j < tail.len() implies header_value_byte(
                #[trigger] tail[j],
            ) by {
                assert(bytes[head.len() + j] == tail[j]);
            }
            assert forall|i: int| 0 <= i < text.len() implies header_value_char(
                #[trigger] text[i],
            ) by {
                if i > 0 {
                    assert(rest[i - 1] == text[i]);
                }
            }
        }
        if valid_header_value(text) {
            assert(header_value_char(text[0]));
            assert forall|i: int| 0 <= i < rest.len() implies header_value_char(
                #[trigger] rest[i],
            ) by {
                assert(rest[i] == text[i + 1]);
            }
            assert forall|k: int| 0 <= k < bytes.len() implies header_value_byte(
                #[trigger] bytes[k],
            ) by {
                if k < head.len() {
                    assert(bytes[k] == head[k]);
                } else {
                    assert(bytes[k] == tail[k - head.len()]);
                }
            }
        }
    }
}

/// A client that was given a token sends it with every request, and sends
/// nothing else: its headers hold the name `authorization` alone, and under
/// it one value, the bytes of the token, marked sensitive.
pub proof fn lemma_token_is_carried(token: Seq<char>)
    ensures
        authorization_only(token).dom() == set![AUTHORIZATION@],
        authorization_only(token)[AUTHORIZATION@] == seq![(encode_utf8(token), true)],
{
    assert(authorization_only(token).dom() =~= set![AUTHORIZATION@]);
}

/// `HeaderMap::new`. Trusted: the new map holds no header.
#[verifier::external_body]
pub(crate) fn new_header_map() -> (headers: HeaderMap)
    ensures
        header_entries(headers) == no_headers(),
{
    HeaderMap::new()
}

/// `HeaderMap::keys_len`. Trusted: the result is the number of header names
/// that the map holds.
#[verifier::external_body]
pub(crate) fn header_count(headers: &HeaderMap) -> (count: usize)
    ensures
        holds_names(header_entries(*headers), count as nat),
{
    headers.keys_len()
}

/// `HeaderValue::from_str`. Trusted: it accepts exactly the texts whose bytes
/// are all `header_value_byte`s, and the value it makes holds the bytes of
/// the text and is not marked sensitive.
#[verifier::external_body]
fn header_value_from_str(text: &str) -> (value: Option<HeaderValue>)
    ensures
        value is Some <==> header_value_bytes_accepted(encode_utf8(text@)),
        value matches Some(v) ==> header_value_bytes(v) == encode_utf8(text@)
            && !header_value_sensitive(v),
{
    HeaderValue::from_str(text).ok()
}

/// `HeaderValue::set_sensitive`. Trusted: it sets the mark and leaves the
/// bytes alone.
#[verifier::external_body]
fn set_sensitive(value: &mut HeaderValue, sensitive: bool)
    ensures
        header_value_bytes(*final(value)) == header_value_bytes(*old(value)),
        header_value_sensitive(*final(value)) == sensitive,
{
    value.set_sensitive(sensitive)
}

/// `HeaderMap::insert` under the name `reqwest::header::AUTHORIZATION`.
/// Trusted: afterwards the name holds `value` and nothing else, and the other
/// names hold what they held. The map panics when it outgrows its size limit,
/// which a map that holds nothing cannot do by one insertion: hence the
/// `requires`.
#[verifier::external_body]
fn insert_authorization(headers: &mut HeaderMap, value: HeaderValue)
    requires
        header_entries(*old(headers)) == no_headers(),
    ensures
        header_entries(*final(headers)) == header_entries(*old(headers)).insert(
            AUTHORIZATION@,
            seq![(header_value_bytes(value), header_value_sensitive(value))],
        ),
{
    headers.insert(reqwest::header::AUTHORIZATION, value);
}

/// Headers that carry `token` as the credential, or `None` where the token
/// cannot be sent as a header value.
pub fn try_create_auth_headers(token: &str) -> (headers: Option<HeaderMap>)
    ensures
        headers is Some <==> valid_header_value(token@),
        headers matches Some(h) ==> header_entries(h) == authorization_only(token@),
{
    proof {
        lemma_valid_header_value_by_bytes(token@);
    }
    match header_value_from_str(token) {
        Some(value) => {
            let mut auth_value = value;
            set_sensitive(&mut auth_value, true);
            let mut headers = new_header_map();
            insert_authorization(&mut headers, auth_value);
            Some(headers)
        },
        None => None,
    }
}

/// Headers that carry `token` as the credential.
pub fn create_auth_headers(token: &str) -> (headers: HeaderMap)
    requires
        valid_header_value(token@),
    ensures
        header_entries(headers) == authorization_only(token@),
{
    try_create_auth_headers(token).unwrap()
}

} // verus!
