//! The client: the address of the service it talks to and the headers it
//! attaches to every request.

use vstd::prelude::*;
use reqwest::header::HeaderMap;
use reqwest::Client as Transport;
use crate::endpoint::{
    checked_base, is_address, join_url, parse_url, url_join, url_text, API_URL, STATUS_PATH,
};
use crate::headers::{
    authorization_only, create_auth_headers, header_entries, new_header_map, no_headers,
    try_create_auth_headers, valid_header_value,
};
use crate::status::{body_holds_active_field, body_is_active, body_reports_active};
use crate::transport::{
    create_request_client, default_headers_of, request_timeout, transport_headers,
    transport_timeout, within_header_limit, TransportError,
};

verus! {

/// Why a client could not be configured.
#[derive(Debug, Clone, Copy, PartialEq, Eq)]
pub enum ConfigError {
    /// The base address is not an absolute address, or the address of the
    /// status resource cannot be formed from it.
    InvalidBaseUrl,
    /// The token cannot be sent as a header value.
    InvalidToken,
}

/// A client of the service.
#[derive(Debug)]
pub struct Client {
    base_url: String,
    default_headers: HeaderMap,
}

/// Why no client is made for `base_url` and, where one is given, `token`:
/// the token is looked at first, then the address. `None` where a client is
/// made.
pub open spec fn construction_error(base_url: Seq<char>, token: Option<Seq<char>>) -> Option<
    ConfigError,
> {
    match token {
        Some(t) if !valid_header_value(t) => Some(ConfigError::InvalidToken),
        _ => if checked_base(base_url) is None {
            Some(ConfigError::InvalidBaseUrl)
        } else {
            None
        },
    }
}

/// No client is made for a text that the parser refuses: construction
/// fails, and with `InvalidBaseUrl` unless the token is at fault.
pub proof fn lemma_invalid_base_url_fails_at_construction(
    base_url: Seq<char>,
    token: Option<Seq<char>>,
)
    requires
        url_text(base_url) is None,
    ensures
        construction_error(base_url, token) is Some,
        construction_error(base_url, None) == Some(ConfigError::InvalidBaseUrl),
        token matches Some(t) ==> (valid_header_value(t) <==> construction_error(base_url, token)
            == Some(ConfigError::InvalidBaseUrl)),
{
}

/// No client is made for an address against which `STATUS_PATH` cannot be
/// resolved: what would fail when the service is asked fails at
/// construction.
pub proof fn lemma_base_without_status_address_fails_at_construction(
    base_url: Seq<char>,
    token: Option<Seq<char>>,
)
    requires
        url_text(base_url) matches Some(text) && url_join(text, STATUS_PATH@) is None,
    ensures
        construction_error(base_url, token) is Some,
        construction_error(base_url, None) == Some(ConfigError::InvalidBaseUrl),
{
}

/// A client that was made can always be asked for the state of the service:
/// its base address came out of the parser and has the address of the
/// status resource below it.
pub proof fn lemma_client_has_status_address(client: Client)
    requires
        client.wf(),
    ensures
        is_address(client.base()),
        url_join(client.base(), STATUS_PATH@) is Some,
{
}

/// Headers as a client holds them: none at all, or the one that carries a
/// token.
pub open spec fn client_headers(entries: Map<Seq<char>, Seq<(Seq<u8>, bool)>>) -> bool {
    entries == no_headers() || exists|token: Seq<char>|
        valid_header_value(token) && entries == #[trigger] authorization_only(token)
}

/// The headers of a client hold one name at most.
pub proof fn lemma_client_headers_are_few(entries: Map<Seq<char>, Seq<(Seq<u8>, bool)>>)
    requires
        client_headers(entries),
    ensures
        entries.dom().finite(),
        entries.dom().len() <= 1,
        within_header_limit(entries),
{
    if entries == no_headers() {
        assert(entries.dom() =~= Set::<Seq<char>>::empty());
    } else {
        let token = choose|token: Seq<char>|
            valid_header_value(token) && entries == #[trigger] authorization_only(token);
        assert(entries.dom() =~= Set::<Seq<char>>::empty().insert(crate::headers::AUTHORIZATION@));
    }
}

impl Client {
    #[verifier::type_invariant]
    spec fn well_formed(self) -> bool {
        self.wf()
    }

    /// The base address, in its normal form.
    pub closed spec fn base(&self) -> Seq<char> {
        self.base_url@
    }

    /// The headers that go out with every request.
    pub closed spec fn headers(&self) -> Map<Seq<char>, Seq<(Seq<u8>, bool)>> {
        header_entries(self.default_headers)
    }

    /// What holds of every client: its base address came out of the parser,
    /// the address of the status resource can be formed from it, and its
    /// headers are none or the one that carries a token.
    pub open spec fn wf(&self) -> bool {
        &&& is_address(self.base())
        &&& url_join(self.base(), STATUS_PATH@) is Some
        &&& client_headers(self.headers())
    }

    /// A client for the public service that sends no credential. `API_URL`
    /// has to be a base address; `try_default` asks the parser.
    pub fn default() -> (client: Self)
        requires
            checked_base(API_URL@) is Some,
        ensures
            client.wf(),
            checked_base(API_URL@) == Some(client.base()),
            client.headers() == no_headers(),
    {
        Client::new(API_URL)
    }

    /// A client for the public service that sends no credential, or the
    /// reason why there is none.
    pub fn try_default() -> (result: Result<Self, ConfigError>)
        ensures
            result is Ok <==> checked_base(API_URL@) is Some,
            result matches Ok(client) ==> client.wf() && checked_base(API_URL@) == Some(
                client.base(),
            ) && client.headers() == no_headers(),
            result matches Err(e) ==> e == ConfigError::InvalidBaseUrl,
            result is Ok ==> construction_error(API_URL@, None) is None,
            result matches Err(e) ==> construction_error(API_URL@, None) == Some(e),
    {
        if Self::is_base_url(API_URL) {
            Ok(Client::default())
        } else {
            Err(ConfigError::InvalidBaseUrl)
        }
    }

    /// A client for the service at `base_url` that sends no credential.
    /// `base_url` has to be a base address; `try_new` asks the parser.
    pub fn new(base_url: &str) -> (client: Self)
        requires
            checked_base(base_url@) is Some,
        ensures
            client.wf(),
            checked_base(base_url@) == Some(client.base()),
            client.headers() == no_headers(),
    {
        let default_headers = new_header_map();
        let base_url = parse_url(base_url).unwrap();
        Client { base_url, default_headers }
    }

    /// A client for the service at `base_url` that sends no credential, or
    /// the reason why there is none. The address is refused exactly when the
    /// parser refuses it or cannot resolve `STATUS_PATH` against it: a client
    /// that exists can always be asked for the state of the service.
    pub fn try_new(base_url: &str) -> (result: Result<Self, ConfigError>)
        ensures
            result is Ok <==> checked_base(base_url@) is Some,
            result matches Ok(client) ==> client.wf() && checked_base(base_url@) == Some(
                client.base(),
            ) && client.headers() == no_headers(),
            result matches Err(e) ==> e == ConfigError::InvalidBaseUrl,
            result is Ok ==> construction_error(base_url@, None) is None,
            result matches Err(e) ==> construction_error(base_url@, None) == Some(e),
    {
        if Self::is_base_url(base_url) {
            Ok(Client::new(base_url))
        } else {
            Err(ConfigError::InvalidBaseUrl)
        }
    }

    /// Whether `base_url` can be the base address of a client.
    pub fn is_base_url(base_url: &str) -> (accepted: bool)
        ensures
            accepted == checked_base(base_url@) is Some,
    {
        match parse_url(base_url) {
            Some(text) => join_url(text.as_str(), STATUS_PATH).is_some(),
            None => false,
        }
    }

    /// A client for the service at `base_url` that sends `token` as its
    /// credential. `base_url` has to be a base address and `token` a header
    /// value; `try_new_with_token` tests both.
    pub fn new_with_token(base_url: &str, token: &str) -> (client: Self)
        requires
            checked_base(base_url@) is Some,
            valid_header_value(token@),
        ensures
            client.wf(),
            checked_base(base_url@) == Some(client.base()),
            client.headers() == authorization_only(token@),
    {
        let default_headers = create_auth_headers(token);
        let base_url = parse_url(base_url).unwrap();
        Client { base_url, default_headers }
    }

    /// A client for the service at `base_url` that sends `token` as its
    /// credential, or the reason why there is none. The token is looked at
    /// first: a token that cannot be sent is reported whatever the address.
    pub fn try_new_with_token(base_url: &str, token: &str) -> (result: Result<Self, ConfigError>)
        ensures
            result is Ok <==> valid_header_value(token@) && checked_base(base_url@) is Some,
            result matches Ok(client) ==> client.wf() && checked_base(base_url@) == Some(
                client.base(),
            ) && client.headers() == authorization_only(token@),
            result matches Err(e) ==> (e == ConfigError::InvalidToken <==> !valid_header_value(
                token@,
            )),
            result is Ok ==> construction_error(base_url@, Some(token@)) is None,
            result matches Err(e) ==> construction_error(base_url@, Some(token@)) == Some(e),
    {
        match try_create_auth_headers(token) {
            Some(_) => if Self::is_base_url(base_url) {
                Ok(Client::new_with_token(base_url, token))
            } else {
                Err(ConfigError::InvalidBaseUrl)
            },
            None => Err(ConfigError::InvalidToken),
        }
    }

    /// Replaces the headers of the client by those that carry `token`, which
    /// has to be a header value; `try_add_token` tests that.
    pub fn add_token(&mut self, token: &str) -> (client: &mut Self)
        requires
            valid_header_value(token@),
        ensures
            client.wf(),
            client.base() == old(self).base(),
            client.headers() == authorization_only(token@),
            *final(self) == *final(client),
    {
        proof {
            use_type_invariant(&*self);
        }
        self.default_headers = create_auth_headers(token);
        self
    }

    /// Replaces the headers of the client by those that carry `token`, or
    /// says why not and leaves the client as it was.
    pub fn try_add_token(&mut self, token: &str) -> (result: Result<(), ConfigError>)
        ensures
            result is Ok <==> valid_header_value(token@),
            final(self).wf(),
            final(self).base() == old(self).base(),
            result is Ok ==> final(self).headers() == authorization_only(token@),
            result matches Err(e) ==> e == ConfigError::InvalidToken && *final(self) == *old(self),
    {
        proof {
            use_type_invariant(&*self);
        }
        match try_create_auth_headers(token) {
            Some(headers) => {
                self.default_headers = headers;
                Ok(())
            },
            None => Err(ConfigError::InvalidToken),
        }
    }

    /// The base address, in its normal form.
    pub fn base_url(&self) -> (text: &str)
        ensures
            self.wf(),
            text@ == self.base(),
    {
        proof {
            use_type_invariant(self);
        }
        self.base_url.as_str()
    }

    /// The headers that go out with every request.
    pub fn default_headers(&self) -> (headers: &HeaderMap)
        ensures
            self.wf(),
            header_entries(*headers) == self.headers(),
    {
        proof {
            use_type_invariant(self);
        }
        &self.default_headers
    }

    /// A transport for the requests of this client: it gives up a request
    /// after `REQUEST_TIMEOUT` seconds and adds the headers of the client, as
    /// they are now, to every request. The headers of a client are never too
    /// many, so the one reason for an error is that the machine cannot
    /// provide a transport.
    pub fn http_client(&self) -> (result: Result<Transport, TransportError>)
        ensures
            result matches Ok(t) ==> transport_timeout(t) == request_timeout(),
            result matches Ok(t) ==> transport_headers(t) == default_headers_of(self.headers()),
            result matches Err(e) ==> e == TransportError::Unavailable,
    {
        proof {
            use_type_invariant(self);
            lemma_client_headers_are_few(self.headers());
        }
        create_request_client(&self.default_headers)
    }

    /// The address to ask for the state of the service: `STATUS_PATH`
    /// resolved against the base address. Every client has one.
    pub fn status_url(&self) -> (url: String)
        ensures
            self.wf(),
            url_join(self.base(), STATUS_PATH@) == Some(url@),
    {
        proof {
            use_type_invariant(self);
        }
        join_url(self.base_url.as_str(), STATUS_PATH).unwrap()
    }

    /// The outcome of a health check, given what came back on the request to
    /// `status_url`: the body of the answer, or `None` where the request
    /// failed. The service counts as up exactly when an answer came, its body
    /// is a JSON object, and the field `status` of the object is a string
    /// that holds `ACTIVE_STATUS`, whatever the other fields hold.
    pub fn is_server_active(reply: Option<&[u8]>) -> (active: bool)
        ensures
            reply is None ==> !active,
            reply matches Some(body) ==> active == body_reports_active(body@),
            reply matches Some(body) ==> active == body_holds_active_field(body@),
    {
        match reply {
            Some(body) => body_is_active(body),
            None => false,
        }
    }
}

} // verus!
