//! The shape of the one HTTP request each client prepares, and trusted
//! endpoint-URL handling.
//!
//! The clients never perform the network exchange themselves: they hand the
//! caller a full [`HttpRequest`] description and interpret the raw reply the
//! caller brings back.

use vstd::prelude::*;

verus! {

/// The User-Agent value both clients send.
pub const USER_AGENT: &'static str = "swift_keystone/0.1.0";

/// The read timeout used when the caller gives none: ten seconds, in
/// milliseconds.
pub const DEFAULT_TIMEOUT_MS: u64 = 10000;

/// The HTTP method of a prepared request.
#[derive(Debug, Clone, Copy, PartialEq, Eq, Structural)]
pub enum Method {
    Get,
    Post,
}

/// A full description of the one HTTP request a client sends: everything the
/// transport needs, as plain values. The timeout is carried by the client
/// separately, since it configures the transport rather than the request.
#[derive(Debug)]
pub struct HttpRequest {
    pub method: Method,
    pub url: String,
    pub headers: Vec<(String, String)>,
    pub body: Option<String>,
}

/// Header pairs as character sequences.
pub open spec fn pairs_view(s: Seq<(String, String)>) -> Seq<(Seq<char>, Seq<char>)> {
    Seq::new(s.len(), |i: int| (s[i].0@, s[i].1@))
}

/// What parsing an endpoint string yields: `Some` exactly on a string that
/// parses as a valid URL, and then the parsed URL's serialization.
pub uninterp spec fn url_norm(s: Seq<char>) -> Option<Seq<char>>;

/// What parsing an endpoint string and then resolving the relative path
/// `tokens` against it yields: `Some` exactly when both steps succeed, and
/// then the resolved URL's serialization.
pub uninterp spec fn url_tokens(s: Seq<char>) -> Option<Seq<char>>;

/// Relies on `url::Url::parse` and `url::Url::as_str`: parsing succeeds on
/// exactly the valid URL strings and is a function of the string alone; on
/// failure the parse error's own text is handed back.
#[verifier::external_body]
pub(crate) fn parse_endpoint(s: &str) -> (r: Result<String, String>)
    ensures
        r is Ok <==> url_norm(s@) is Some,
        r matches Ok(u) ==> url_norm(s@) matches Some(n) && u@ == n,
{
    match url::Url::parse(s) {
        Ok(u) => Ok(u.as_str().to_string()),
        Err(e) => Err(e.to_string()),
    }
}

/// Relies on `url::Url::parse`, `url::Url::join` with the relative path
/// `tokens`, and `url::Url::as_str`: the outcome is a function of the string
/// alone; on failure the parse error's own text is handed back.
#[verifier::external_body]
pub(crate) fn resolve_tokens_endpoint(s: &str) -> (r: Result<String, String>)
    ensures
        r is Ok <==> url_tokens(s@) is Some,
        r matches Ok(u) ==> url_tokens(s@) matches Some(n) && u@ == n,
{
    let base = match url::Url::parse(s) {
        Ok(u) => u,
        Err(e) => return Err(e.to_string()),
    };
    match base.join("tokens") {
        Ok(u) => Ok(u.as_str().to_string()),
        Err(e) => Err(e.to_string()),
    }
}

/// Copies a header list; the copy reads the same, pair for pair.
pub(crate) fn clone_headers(hs: &Vec<(String, String)>) -> (r: Vec<(String, String)>)
    ensures
        r@ == hs@,
{
    let mut r: Vec<(String, String)> = Vec::new();
    let mut i: usize = 0;
    while i < hs.len()
        invariant
            i <= hs@.len(),
            r@.len() == i,
            forall|j: int| 0 <= j < i ==> r@[j] == hs@[j],
        decreases hs@.len() - i,
    {
        let name = hs[i].0.clone();
        let value = hs[i].1.clone();
        r.push((name, value));
        i = i + 1;
    }
    proof {
        assert(r@ =~= hs@);
    }
    r
}

} // verus!
