//! The v1 protocol client: a credential-bearing GET against a fixed URL,
//! answered by two mandatory response headers.

use vstd::prelude::*;
use vstd::string::StringExecFns;
use vstd::utf8::valid_utf8;
use crate::error::{results_alike, ErrView, Error};
use crate::http::{
    clone_headers, pairs_view, parse_endpoint, url_norm, HttpRequest, Method, DEFAULT_TIMEOUT_MS,
    USER_AGENT,
};

verus! {

/// The decoded characters of a valid UTF-8 byte sequence, as
/// `String::from_utf8` yields them.
pub uninterp spec fn utf8_seq(b: Seq<u8>) -> Seq<char>;

/// Relies on `String::from_utf8`: `Some` exactly on valid UTF-8 input, and
/// then the decoded characters, a function of the bytes alone.
#[verifier::external_body]
fn bytes_to_string(b: Vec<u8>) -> (r: Option<String>)
    ensures
        r is Some <==> valid_utf8(b@),
        r matches Some(s) ==> s@ == utf8_seq(b@),
{
    String::from_utf8(b).ok()
}

/// A successful v1 authentication: the two mandatory response headers,
/// decoded as text.
#[derive(Debug)]
pub struct Response {
    pub storage_url: String,
    pub auth_token: String,
}

/// The mathematical shape of a v1 [`Response`].
pub struct RespView {
    pub storage_url: Seq<char>,
    pub auth_token: Seq<char>,
}

impl View for Response {
    type V = RespView;

    open spec fn view(&self) -> RespView {
        RespView { storage_url: self.storage_url@, auth_token: self.auth_token@ }
    }
}

/// The parts of the transport's reply that the v1 protocol reads: the status
/// code, its human-readable reason phrase, and the two authentication
/// headers, each as raw bytes where present.
#[derive(Debug)]
pub struct ServerReply {
    pub status: u16,
    pub reason: String,
    pub storage_url: Option<Vec<u8>>,
    pub auth_token: Option<Vec<u8>>,
}

/// The mathematical shape of a v1 [`ServerReply`].
pub struct ReplyView {
    pub status: u16,
    pub reason: Seq<char>,
    pub storage_url: Option<Seq<u8>>,
    pub auth_token: Option<Seq<u8>>,
}

impl View for ServerReply {
    type V = ReplyView;

    open spec fn view(&self) -> ReplyView {
        ReplyView {
            status: self.status,
            reason: self.reason@,
            storage_url: match self.storage_url {
                Some(b) => Some(b@),
                None => None,
            },
            auth_token: match self.auth_token {
                Some(b) => Some(b@),
                None => None,
            },
        }
    }
}

/// The message of the protocol-violation failure: a success status without
/// both mandatory headers.
pub const MISSING_HEADER_TEXT: &'static str = "Invalid response from server";

/// The message of the failure on a header value that is not valid UTF-8.
pub const BAD_HEADER_TEXT: &'static str = "header value is not valid UTF-8";

/// The prefix of the failure message on a non-success status; the status
/// code's reason phrase follows it.
pub const FAILED_PREFIX: &'static str = "Authentication failed => ";

/// What interpreting a v1 reply yields, for every reply.
///
/// On a success status with both headers present and UTF-8-decodable, the
/// decoded pair; on a success status with a header missing, the fixed
/// protocol-violation message; on a success status with an undecodable
/// header, an encoding failure; on any other status, the reason phrase
/// behind the fixed prefix.
pub open spec fn v1_outcome(rep: ReplyView) -> Result<RespView, ErrView> {
    if 200 <= rep.status < 300 {
        match (rep.storage_url, rep.auth_token) {
            (Some(su), Some(at)) => {
                if valid_utf8(su) && valid_utf8(at) {
                    Ok(RespView { storage_url: utf8_seq(su), auth_token: utf8_seq(at) })
                } else {
                    Err(ErrView::EncodingFailure(BAD_HEADER_TEXT@))
                }
            },
            _ => Err(ErrView::Generic(MISSING_HEADER_TEXT@)),
        }
    } else {
        Err(ErrView::Generic(FAILED_PREFIX@ + rep.reason))
    }
}

/// Whether a result is the one interpretation of the reply.
pub open spec fn v1_interpretation(rep: ReplyView, r: Result<Response, Error>) -> bool {
    match v1_outcome(rep) {
        Ok(v) => r matches Ok(x) && x@ == v,
        Err(e) => r matches Err(x) && x@ == e,
    }
}

/// The v1 protocol client: immutable, call-scoped configuration fixed at
/// construction.
#[derive(Debug)]
pub struct Client {
    headers: Vec<(String, String)>,
    timeout: u64,
    url: String,
}

/// The request headers a v1 client precomputes.
pub open spec fn v1_headers(username: Seq<char>, password: Seq<char>) -> Seq<
    (Seq<char>, Seq<char>),
> {
    seq![("User-Agent"@, USER_AGENT@), ("X-Auth-User"@, username), ("X-Auth-Key"@, password)]
}

impl Client {
    /// The serialized endpoint URL the client will contact.
    pub closed spec fn spec_url(&self) -> Seq<char> {
        self.url@
    }

    /// The precomputed request headers.
    pub closed spec fn spec_headers(&self) -> Seq<(Seq<char>, Seq<char>)> {
        pairs_view(self.headers@)
    }

    /// The read timeout, in milliseconds.
    pub closed spec fn spec_timeout(&self) -> u64 {
        self.timeout
    }

    /// Builds a client for the given endpoint and credentials, with the given
    /// read timeout in milliseconds (ten seconds when none is given).
    /// Succeeds exactly when the endpoint string parses as a valid URL.
    pub fn new(url: &str, username: &str, password: &str, timeout: Option<u64>) -> (r: Result<
        Client,
        Error,
    >)
        ensures
            r is Ok <==> url_norm(url@) is Some,
            r matches Ok(c) ==> {
                &&& url_norm(url@) matches Some(n) && c.spec_url() == n
                &&& c.spec_headers() == v1_headers(username@, password@)
                &&& c.spec_timeout() == (match timeout {
                    Some(ms) => ms,
                    None => DEFAULT_TIMEOUT_MS,
                })
            },
            r matches Err(e) ==> e@ is InvalidEndpoint,
    {
        let url_s = match parse_endpoint(url) {
            Ok(u) => u,
            Err(m) => {
                return Err(Error::InvalidEndpoint(m));
            },
        };
        let mut headers: Vec<(String, String)> = Vec::new();
        headers.push((String::from_str("User-Agent"), String::from_str(USER_AGENT)));
        headers.push((String::from_str("X-Auth-User"), String::from_str(username)));
        headers.push((String::from_str("X-Auth-Key"), String::from_str(password)));
        let t: u64 = match timeout {
            Some(ms) => ms,
            None => DEFAULT_TIMEOUT_MS,
        };
        let c = Client { headers, timeout: t, url: url_s };
        proof {
            assert(c.spec_headers() =~= v1_headers(username@, password@));
        }
        Ok(c)
    }

    /// The read timeout, in milliseconds.
    pub fn timeout(&self) -> (r: u64)
        ensures
            r == self.spec_timeout(),
    {
        self.timeout
    }

    /// The one request this client sends: a GET to the configured URL with
    /// the precomputed headers and no body.
    pub fn request(&self) -> (r: HttpRequest)
        ensures
            r.method is Get,
            r.url@ == self.spec_url(),
            pairs_view(r.headers@) == self.spec_headers(),
            r.body is None,
    {
        HttpRequest {
            method: Method::Get,
            url: self.url.clone(),
            headers: clone_headers(&self.headers),
            body: None,
        }
    }

    /// Interprets the transport's reply, as [`v1_outcome`] describes.
    pub fn interpret(&self, reply: ServerReply) -> (r: Result<Response, Error>)
        ensures
            v1_interpretation(reply@, r),
    {
        if 200 <= reply.status && reply.status < 300 {
            match (reply.storage_url, reply.auth_token) {
                (Some(su), Some(at)) => {
                    let storage_url = match bytes_to_string(su) {
                        Some(s) => s,
                        None => {
                            return Err(Error::EncodingFailure(String::from_str(BAD_HEADER_TEXT)));
                        },
                    };
                    let auth_token = match bytes_to_string(at) {
                        Some(s) => s,
                        None => {
                            return Err(Error::EncodingFailure(String::from_str(BAD_HEADER_TEXT)));
                        },
                    };
                    Ok(Response { storage_url, auth_token })
                },
                _ => Err(Error::Generic(String::from_str(MISSING_HEADER_TEXT))),
            }
        } else {
            let msg = String::from_str(FAILED_PREFIX).concat(reply.reason.as_str());
            Err(Error::Generic(msg))
        }
    }
}

/// One reply has one interpretation: any two results that interpret the same
/// reply are structurally identical. The client holds no mutable state, so a
/// second call against an unchanged server repeats the first.
pub proof fn lemma_v1_interpret_deterministic(
    rep: ReplyView,
    r1: Result<Response, Error>,
    r2: Result<Response, Error>,
)
    requires
        v1_interpretation(rep, r1),
        v1_interpretation(rep, r2),
    ensures
        results_alike(r1, r2),
{
}

} // verus!
