//! The part of a client of the sending API that decides what a request
//! holds: where it goes and with which headers. Sending it is left to the
//! caller's HTTP stack.

use crate::types::string_map::entry_view;
use std::time::Duration;
use vstd::prelude::*;

verus! {

/// The path, below the base URL, of the sending endpoint.
pub const SEND_EMAIL_BASE_PATH: &'static str = "api/send";

/// What `url` makes of `s`: the serialization of the parsed URL, or the
/// description of the parse error.
pub uninterp spec fn url_parse_outcome(s: Seq<char>) -> Result<Seq<char>, Seq<char>>;

/// Parses `s` with `url::Url::parse`; on success gives the URL's
/// serialization (its `Display`), on failure the error's `Display`. Claims
/// only that the outcome is a function of the text.
#[verifier::external_body]
fn parse_url(s: &str) -> (r: Result<String, String>)
    ensures
        match r {
            Ok(u) => url_parse_outcome(s@) == Ok::<Seq<char>, Seq<char>>(u@),
            Err(e) => url_parse_outcome(s@) == Err::<Seq<char>, Seq<char>>(e@),
        },
{
    match url::Url::parse(s) {
        Ok(u) => Ok(u.to_string()),
        Err(e) => Err(e.to_string()),
    }
}

/// A client of the sending API: its base URL, its API token and the time
/// limit for a request.
pub struct MailtrapClient {
    base_url: String,
    api_token: String,
    timeout: Duration,
}

impl Clone for MailtrapClient {
    /// A client with the same base URL, token and time limit.
    fn clone(&self) -> (r: MailtrapClient)
        ensures
            r == *self,
    {
        MailtrapClient {
            base_url: self.base_url.clone(),
            api_token: self.api_token.clone(),
            timeout: self.timeout,
        }
    }
}

impl MailtrapClient {
    /// The serialized base URL.
    pub closed spec fn base_url_view(&self) -> Seq<char> {
        self.base_url@
    }

    /// The API token.
    pub closed spec fn api_token_view(&self) -> Seq<char> {
        self.api_token@
    }

    /// The time limit for a request.
    pub closed spec fn timeout_view(&self) -> Duration {
        self.timeout
    }

    /// A client for the API at `base_url`; fails, with the parser's message,
    /// exactly when `url` refuses `base_url`.
    pub fn new(base_url: &str, api_token: String, timeout: Duration) -> (r: Result<
        MailtrapClient,
        String,
    >)
        ensures
            match url_parse_outcome(base_url@) {
                Ok(u) => r is Ok && r->Ok_0.base_url_view() == u && r->Ok_0.api_token_view()
                    == api_token@ && r->Ok_0.timeout_view() == timeout,
                Err(e) => r is Err && r->Err_0@ == "Could not parse URL. "@ + e,
            },
    {
        let parsed = parse_url(base_url);
        MailtrapClient::from_parsed_url(parsed, api_token, timeout)
    }

    /// A client given what `url` made of the base URL: its serialization, or
    /// the parser's message, which becomes the error.
    pub fn from_parsed_url(parsed: Result<String, String>, api_token: String, timeout: Duration) -> (r: Result<
        MailtrapClient,
        String,
    >)
        ensures
            match parsed {
                Ok(u) => r is Ok && r->Ok_0.base_url_view() == u@ && r->Ok_0.api_token_view()
                    == api_token@ && r->Ok_0.timeout_view() == timeout,
                Err(e) => r is Err && r->Err_0@ == "Could not parse URL. "@ + e@,
            },
    {
        match parsed {
            Ok(url) => Ok(MailtrapClient { base_url: url, api_token, timeout }),
            Err(e) => Err("Could not parse URL. ".to_owned().concat(e.as_str())),
        }
    }

    /// The address that messages are sent to: the base URL followed by the
    /// sending path.
    pub fn send_address(&self) -> (r: String)
        ensures
            r@ == self.base_url_view() + SEND_EMAIL_BASE_PATH@,
    {
        self.base_url.clone().concat(SEND_EMAIL_BASE_PATH)
    }

    /// The headers of a send request, in order: the API token, and JSON as
    /// both the content type and the accepted type.
    pub fn request_headers(&self) -> (r: Vec<(String, String)>)
        ensures
            r@.map_values(|e: (String, String)| entry_view(e)) == seq![
                ("Api-Token"@, self.api_token_view()),
                ("Content-Type"@, "application/json"@),
                ("Accept"@, "application/json"@),
            ],
    {
        let mut r: Vec<(String, String)> = Vec::new();
        r.push(("Api-Token".to_owned(), self.api_token.clone()));
        r.push(("Content-Type".to_owned(), "application/json".to_owned()));
        r.push(("Accept".to_owned(), "application/json".to_owned()));
        assert(r@.map_values(|e: (String, String)| entry_view(e)) =~= seq![
            ("Api-Token"@, self.api_token_view()),
            ("Content-Type"@, "application/json"@),
            ("Accept"@, "application/json"@),
        ]);
        r
    }

    /// The serialized base URL.
    pub fn base_url(&self) -> (r: &str)
        ensures
            r@ == self.base_url_view(),
    {
        self.base_url.as_str()
    }

    /// The API token.
    pub fn api_token(&self) -> (r: &str)
        ensures
            r@ == self.api_token_view(),
    {
        self.api_token.as_str()
    }

    /// The time limit for a request.
    pub fn timeout(&self) -> (r: Duration)
        ensures
            r == self.timeout_view(),
    {
        self.timeout
    }
}

} // verus!
