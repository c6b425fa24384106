//! The transport of a client: the `reqwest::Client` that sends its requests.
//!
//! Whether a transport can be had depends on the machine (its TLS backend
//! and its resolver), so none is ever promised. Where one is made, it holds
//! what it was made with: a time limit for each request, and the headers it
//! adds to each request that does not set them itself. The two names
//! `transport_timeout` and `transport_headers` stand for these.

use std::time::Duration;
use vstd::prelude::*;
use vstd::utf8::encode_utf8;
use reqwest::header::HeaderMap;
use reqwest::Client as Transport;
use crate::headers::{authorization_only, header_count, header_entries, no_headers, AUTHORIZATION};

verus! {

/// Seconds after which a request is given up.
pub const REQUEST_TIMEOUT: u64 = 5;

/// The most header names that a transport is made with.
pub const MAX_DEFAULT_HEADERS: usize = 1024;

/// Name of the header that every transport holds from the start.
pub const ACCEPT: &'static str = "accept";

/// What every transport holds under `ACCEPT` from the start.
pub const ACCEPT_ANY: &'static str = "*/*";

/// Why no transport was made.
#[derive(Debug, Clone, Copy, PartialEq, Eq)]
pub enum TransportError {
    /// The headers hold more than `MAX_DEFAULT_HEADERS` names.
    TooManyHeaders,
    /// The machine cannot provide a transport.
    Unavailable,
}

/// `reqwest::Client`, taken as it is: Verus sees nothing inside.
#[verifier::external_type_specification]
#[verifier::external_body]
pub struct ExTransport(Transport);

/// The headers that a transport holds, to add them to each request that does
/// not set them itself: for each header name, in lower case, the values held
/// under it, each as its bytes and its sensitive mark.
pub uninterp spec fn transport_headers(transport: Transport) -> Map<Seq<char>, Seq<(Seq<u8>, bool)>>;

/// The time limit that a transport sets for each request, in whole seconds
/// and nanoseconds, or `None` where it sets none.
pub uninterp spec fn transport_timeout(transport: Transport) -> Option<(u64, u32)>;

/// The headers of a transport that was given none: `accept`, with `*/*` as
/// its only value, not marked sensitive.
pub open spec fn builder_headers() -> Map<Seq<char>, Seq<(Seq<u8>, bool)>> {
    no_headers().insert(ACCEPT@, seq![(encode_utf8(ACCEPT_ANY@), false)])
}

/// Of each header name the value that was given last, alone.
pub open spec fn last_values(entries: Map<Seq<char>, Seq<(Seq<u8>, bool)>>) -> Map<
    Seq<char>,
    Seq<(Seq<u8>, bool)>,
> {
    Map::new(
        |name: Seq<char>| entries.contains_key(name),
        |name: Seq<char>| seq![entries[name].last()],
    )
}

/// The headers of a transport that was given `entries`: those it holds from
/// the start, and over them the last value of each name in `entries`.
pub open spec fn default_headers_of(entries: Map<Seq<char>, Seq<(Seq<u8>, bool)>>) -> Map<
    Seq<char>,
    Seq<(Seq<u8>, bool)>,
> {
    builder_headers().union_prefer_right(last_values(entries))
}

/// The headers are few enough to make a transport with.
pub open spec fn within_header_limit(entries: Map<Seq<char>, Seq<(Seq<u8>, bool)>>) -> bool {
    entries.dom().finite() && entries.dom().len() <= MAX_DEFAULT_HEADERS
}

/// The time limit of every transport of this library.
pub open spec fn request_timeout() -> Option<(u64, u32)> {
    Some((REQUEST_TIMEOUT, 0u32))
}

/// A transport made without a token holds the header it has from the start
/// and no other.
pub proof fn lemma_transport_without_token()
    ensures
        default_headers_of(no_headers()) == builder_headers(),
{
    assert(default_headers_of(no_headers()) =~= builder_headers());
}

/// A transport made with a token holds the token: under the name
/// `authorization` it has one value, the bytes of the token, marked
/// sensitive. Besides it holds the header it has from the start.
pub proof fn lemma_transport_carries_token(token: Seq<char>)
    ensures
        default_headers_of(authorization_only(token)).contains_key(AUTHORIZATION@),
        default_headers_of(authorization_only(token))[AUTHORIZATION@] == seq![
            (encode_utf8(token), true),
        ],
        default_headers_of(authorization_only(token)) == builder_headers().insert(
            AUTHORIZATION@,
            seq![(encode_utf8(token), true)],
        ),
{
    let given = authorization_only(token);
    assert(given.contains_key(AUTHORIZATION@));
    assert(given[AUTHORIZATION@].last() == (encode_utf8(token), true));
    assert(default_headers_of(given) =~= builder_headers().insert(
        AUTHORIZATION@,
        seq![(encode_utf8(token), true)],
    ));
}

/// `reqwest::Client::builder`, with `timeout`, `default_headers` and `build`
/// of the builder. Trusted: where `build` reports no error, the transport
/// has the time limit that was given, and holds the header that the builder
/// starts with and over it, for each name of `headers`, the value that
/// `headers` lists last. Whether `build` reports an error is left open: that
/// depends on the machine. `default_headers` puts each header into a map of
/// the builder, which panics when it outgrows its size limit; a map of some
/// thousand names stays far below that: hence the `requires`.
#[verifier::external_body]
fn build_client(timeout_secs: u64, headers: &HeaderMap) -> (client: Option<Transport>)
    requires
        within_header_limit(header_entries(*headers)),
    ensures
        client matches Some(t) ==> transport_timeout(t) == Some((timeout_secs, 0u32))
            && transport_headers(t) == default_headers_of(header_entries(*headers)),
{
    reqwest::Client::builder()
        .timeout(Duration::new(timeout_secs, 0))
        .default_headers(headers.clone())
        .build()
        .ok()
}

/// A transport that gives up a request after `REQUEST_TIMEOUT` seconds and
/// adds `headers` to every request. It is refused as `TooManyHeaders` exactly
/// where `headers` holds more than `MAX_DEFAULT_HEADERS` names; whether the
/// machine provides one is not for the library to say.
pub fn create_request_client(headers: &HeaderMap) -> (result: Result<Transport, TransportError>)
    ensures
        result matches Ok(t) ==> transport_timeout(t) == request_timeout(),
        result matches Ok(t) ==> transport_headers(t) == default_headers_of(
            header_entries(*headers),
        ),
        result matches Err(e) ==> (e == TransportError::TooManyHeaders <==> !within_header_limit(
            header_entries(*headers),
        )),
        result is Ok ==> within_header_limit(header_entries(*headers)),
{
    if header_count(headers) > MAX_DEFAULT_HEADERS {
        Err(TransportError::TooManyHeaders)
    } else {
        match build_client(REQUEST_TIMEOUT, headers) {
            Some(transport) => Ok(transport),
            None => Err(TransportError::Unavailable),
        }
    }
}

} // verus!
