use vstd::prelude::*;

use crate::data::GemInfo;
use crate::decode::decode_gem;
use crate::decode::gem_json_ok;
use crate::decode::gem_of;
use crate::json::json_of;
use crate::json::parse_json;
use vstd::string::StringExecFns;

verus! {

/// The detail carried by an `Http`-class failure.
#[derive(Debug, PartialEq, Eq)]
pub enum HttpIssue {
    /// The server answered with this non-success, non-404 status.
    Status(u16),
    /// The transport failed before a response was available; carries the
    /// transport's own description of the failure.
    Transport(String),
    /// The server answered with success, but the body is not well-formed
    /// JSON.
    BodySyntax,
    /// The body is well-formed JSON, but not of the gem-metadata shape.
    BodyShape,
}

/// The three kinds of failure a query can end in: an HTTP-level failure
/// (status, transport or body decode, with its detail), a package name that
/// does not join into a valid request URL, and a package that the registry
/// does not know (HTTP 404).
#[derive(Debug, PartialEq, Eq)]
pub enum Error {
    Http(HttpIssue),
    Url,
    NotFound,
}

/// The URL obtained by resolving the relative reference `rel` against the
/// absolute URL `base`, or `None` where the two do not resolve to a valid
/// URL: what `join_url` returns.
pub uninterp spec fn url_join(base: Seq<char>, rel: Seq<char>) -> Option<Seq<char>>;

/// Relies on url::Url::parse and url::Url::join: parsing an absolute URL and
/// resolving a relative reference against it are pure functions of the two
/// strings; `From<Url> for String` hands out the resolved URL's
/// serialization.
#[verifier::external_body]
fn join_url(base: &str, rel: &str) -> (r: Option<String>)
    ensures
        r is Some <==> url_join(base@, rel@) is Some,
        r matches Some(u) ==> u@ == url_join(base@, rel@)->Some_0,
{
    match url::Url::parse(base).and_then(|b| b.join(rel)) {
        Ok(u) => Some(String::from(u)),
        Err(_) => None,
    }
}

/// The request target for a package name against a base URL: the name with
/// `.json` appended, resolved against the base.
pub open spec fn request_target(base: Seq<char>, name: Seq<char>) -> Option<Seq<char>> {
    url_join(base, name + ".json"@)
}

/// What `gem_info_url` returns for a base URL and a package name: the
/// resolved request URL, or the `Url` error — and no other kind — where the
/// name does not join into a valid URL.
pub open spec fn gem_url_spec(base: Seq<char>, name: Seq<char>, r: Result<String, Error>) -> bool {
    match request_target(base, name) {
        Some(u) => r matches Ok(s) && s@ == u,
        None => r matches Err(e) && e is Url,
    }
}

/// The status code is a success (2xx) status.
pub open spec fn is_success_status(status: u16) -> bool {
    200 <= status < 300
}

/// What `gem_info_response` returns for a status code and a body: 404 is
/// `NotFound`; any other non-success status is the `Http` status error
/// carrying that code; on success the body must be well-formed JSON of the
/// gem-metadata shape, and the record is its fields exactly, else the
/// matching `Http`-class decode error — never a partial record.
pub open spec fn gem_response_spec(status: u16, body: Seq<char>, r: Result<GemInfo, Error>) -> bool {
    if status == 404 {
        r matches Err(e) && e is NotFound
    } else if !is_success_status(status) {
        r matches Err(e) && e matches Error::Http(i) && i matches HttpIssue::Status(s) && s
            == status
    } else {
        match json_of(body) {
            None => r matches Err(e) && e matches Error::Http(i) && i is BodySyntax,
            Some(v) => if gem_json_ok(v) {
                r matches Ok(g) && g@ == gem_of(v)
            } else {
                r matches Err(e) && e matches Error::Http(i) && i is BodyShape
            },
        }
    }
}

/// A client of the registry's gem-metadata endpoint. It holds the base URL
/// that request URLs are resolved against; the HTTP round trip itself is the
/// caller's: `gem_info_url` says what to fetch, `gem_info_response` turns
/// the fetched status and body into the typed result.
pub struct SyncClient {
    base_url: String,
}

impl View for SyncClient {
    type V = Seq<char>;

    closed spec fn view(&self) -> Seq<char> {
        self.base_url@
    }
}

/// The registry base URL a default client is built against.
pub open spec fn spec_default_base_url() -> Seq<char> {
    "https://rubygems.org/api/v1/gems/"@
}

impl SyncClient {
    /// A client against the RubyGems.org gem-metadata endpoint.
    pub fn new() -> (r: Self)
        ensures
            r@ == spec_default_base_url(),
    {
        SyncClient { base_url: String::from_str("https://rubygems.org/api/v1/gems/") }
    }

    /// A client against a caller-chosen base URL (for instance a mock
    /// endpoint); requests resolve `<name>.json` against it.
    pub fn with_base_url(base_url: String) -> (r: Self)
        ensures
            r@ == base_url@,
    {
        SyncClient { base_url }
    }

    /// The URL to fetch for the package `name`: `<name>.json` resolved
    /// against the client's base URL. Fails with the `Url` error exactly
    /// where the name does not join into a valid URL.
    pub fn gem_info_url(&self, name: &str) -> (r: Result<String, Error>)
        ensures
            gem_url_spec(self@, name@, r),
    {
        let rel = String::from_str(name).concat(".json");
        match join_url(self.base_url.as_str(), rel.as_str()) {
            Some(u) => Ok(u),
            None => Err(Error::Url),
        }
    }

    /// Classifies a fetched response and decodes its body: HTTP 404 is
    /// `NotFound`, any other non-success status the `Http` status error; on
    /// a success status the body is decoded into the gem record, and a
    /// malformed body is an `Http`-class decode error, never a panic and
    /// never a partial record.
    pub fn gem_info_response(&self, status: u16, body: &str) -> (r: Result<GemInfo, Error>)
        ensures
            gem_response_spec(status, body@, r),
    {
        if status == 404 {
            return Err(Error::NotFound);
        }
        if !(200 <= status && status < 300) {
            return Err(Error::Http(HttpIssue::Status(status)));
        }
        match parse_json(body) {
            None => Err(Error::Http(HttpIssue::BodySyntax)),
            Some(v) => match decode_gem(&v) {
                Some(g) => Ok(g),
                None => Err(Error::Http(HttpIssue::BodyShape)),
            },
        }
    }
}

} // verus!
