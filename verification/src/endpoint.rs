//! Addresses of the service: the base address a client is made for and the
//! addresses of the resources below it.
//!
//! Parsing and resolving addresses is the work of `reqwest::Url`. The library
//! keeps an address as its text and states its contracts over the two names
//! `url_text` and `url_join`, which stand for what that parser returns.

use std::str::FromStr;
use vstd::prelude::*;

verus! {

/// Address of the public service, used where the caller gives none.
pub const API_URL: &'static str = "https://api.spacetraders.io";

/// Path of the resource that reports whether the service is up.
pub const STATUS_PATH: &'static str = "/game/status";

/// What `reqwest::Url::from_str` makes of `input`: the text of the address in
/// its normal form, or `None` where `input` is not an absolute address.
pub uninterp spec fn url_text(input: Seq<char>) -> Option<Seq<char>>;

/// What `reqwest::Url::join` makes of `reference` against the address written
/// as `base`: the text of the resulting address, or `None` where `base` is no
/// address or `reference` cannot be resolved against it.
pub uninterp spec fn url_join(base: Seq<char>, reference: Seq<char>) -> Option<Seq<char>>;

/// A text is an address when the parser produced it from some input.
pub open spec fn is_address(text: Seq<char>) -> bool {
    exists|input: Seq<char>| #[trigger] url_text(input) == Some(text)
}

/// The base address that `input` gives a client: its normal form, where it is
/// an address and `STATUS_PATH` can be resolved against it. There is none
/// where the parser refuses `input`, and none where the address has nothing
/// below it.
pub open spec fn checked_base(input: Seq<char>) -> Option<Seq<char>> {
    match url_text(input) {
        Some(text) => if url_join(text, STATUS_PATH@) is Some {
            Some(text)
        } else {
            None
        },
        None => None,
    }
}

/// A text that the parser refuses is the base address of no client.
pub proof fn lemma_refused_address_is_no_base(input: Seq<char>)
    requires
        url_text(input) is None,
    ensures
        checked_base(input) is None,
{
}

/// The base address of a client came out of the parser, and the address of
/// the status resource can be formed from it.
pub proof fn lemma_base_has_status_address(input: Seq<char>)
    requires
        checked_base(input) is Some,
    ensures
        url_text(input) == checked_base(input),
        is_address(checked_base(input)->0),
        url_join(checked_base(input)->0, STATUS_PATH@) is Some,
{
}

/// Parses `input` with `reqwest::Url::from_str` and hands back the address as
/// text. Trusted: the result is, by definition, `url_text` of the input; that
/// the parser is a function of its input alone is what the name claims.
#[verifier::external_body]
pub(crate) fn parse_url(input: &str) -> (parsed: Option<String>)
    ensures
        parsed.deep_view() == url_text(input@),
{
    reqwest::Url::from_str(input).ok().map(String::from)
}

/// Resolves `reference` against `base` with `reqwest::Url::join`, after
/// reading `base` back into an address with `reqwest::Url::from_str`.
/// Trusted: the result is, by definition, `url_join` of the two texts.
#[verifier::external_body]
pub(crate) fn join_url(base: &str, reference: &str) -> (joined: Option<String>)
    ensures
        joined.deep_view() == url_join(base@, reference@),
{
    reqwest::Url::from_str(base).ok()?.join(reference).ok().map(String::from)
}

} // verus!
