//! The v2 protocol client: a JSON-encoded POST against the token endpoint,
//! answered by an access descriptor on success or an error descriptor on
//! failure.

use vstd::prelude::*;
use vstd::string::StringExecFns;
use crate::error::{results_alike, ErrView, Error};
use crate::http::{
    clone_headers, pairs_view, resolve_tokens_endpoint, url_tokens, HttpRequest, Method,
    DEFAULT_TIMEOUT_MS, USER_AGENT,
};
use crate::json::{
    esc, get_arr, get_field, get_i64, get_str, is_null, json_doc, json_err, json_view,
    append_escaped, parse_json, JsonRep,
};

verus! {

/// The timestamp of a well-formed RFC 3339 date-time, in milliseconds since
/// the Unix epoch; `None` on any other text.
pub uninterp spec fn rfc3339_ms(s: Seq<char>) -> Option<int>;

/// Relies on `chrono::DateTime::parse_from_rfc3339` and
/// `chrono::DateTime::timestamp_millis`: `Some` exactly on a well-formed
/// RFC 3339 date-time, and then its timestamp, a function of the text alone.
#[verifier::external_body]
fn parse_rfc3339_ms(s: &str) -> (r: Option<i64>)
    ensures
        r is Some <==> rfc3339_ms(s@) is Some,
        r matches Some(ms) ==> rfc3339_ms(s@) matches Some(m) && ms as int == m,
{
    chrono::DateTime::parse_from_rfc3339(s).ok().map(|d| d.timestamp_millis())
}

/// Relies on `chrono::Utc::now` and `chrono::DateTime::timestamp_millis`: the
/// current wall-clock time in milliseconds since the Unix epoch. Nothing is
/// promised of the value.
#[verifier::external_body]
fn now_ms() -> i64 {
    chrono::Utc::now().timestamp_millis()
}

/// Relies on `i64`'s decimal `Display` through `to_string`: an optional minus
/// sign followed by the digits, no padding.
#[verifier::external_body]
fn int_to_string(n: i64) -> (r: String)
    ensures
        r@ == dec_str(n as int),
{
    n.to_string()
}

/// The decimal digit for a value below ten.
pub open spec fn digit(n: int) -> char {
    if n == 0 {
        '0'
    } else if n == 1 {
        '1'
    } else if n == 2 {
        '2'
    } else if n == 3 {
        '3'
    } else if n == 4 {
        '4'
    } else if n == 5 {
        '5'
    } else if n == 6 {
        '6'
    } else if n == 7 {
        '7'
    } else if n == 8 {
        '8'
    } else {
        '9'
    }
}

/// The decimal digits of a non-negative integer, most significant first.
pub open spec fn dec_digits(n: int) -> Seq<char>
    decreases n,
{
    if n < 10 {
        seq![digit(n)]
    } else {
        dec_digits(n / 10).push(digit(n % 10))
    }
}

/// The decimal representation of an integer: an optional minus sign followed
/// by the digits.
pub open spec fn dec_str(n: int) -> Seq<char> {
    if n < 0 {
        seq!['-'] + dec_digits(-n)
    } else {
        dec_digits(n)
    }
}

/// A name paired with an optional identifier, as tenants and roles carry it.
/// A missing or null identifier reads as absent.
#[derive(Debug)]
pub struct ResponseAccessIdName {
    pub id: Option<String>,
    pub name: String,
}

/// The mathematical shape of a [`ResponseAccessIdName`].
pub struct IdNameView {
    pub id: Option<Seq<char>>,
    pub name: Seq<char>,
}

impl View for ResponseAccessIdName {
    type V = IdNameView;

    open spec fn view(&self) -> IdNameView {
        IdNameView {
            id: match self.id {
                Some(s) => Some(s@),
                None => None,
            },
            name: self.name@,
        }
    }
}

/// The issued token: its identifier, its expiry as milliseconds since the
/// Unix epoch, and the tenant it is scoped to.
#[derive(Debug)]
pub struct ResponseAccessToken {
    pub id: String,
    pub expires: i64,
    pub tenant: ResponseAccessIdName,
}

/// The mathematical shape of a [`ResponseAccessToken`].
pub struct TokenView {
    pub id: Seq<char>,
    pub expires: int,
    pub tenant: IdNameView,
}

impl View for ResponseAccessToken {
    type V = TokenView;

    open spec fn view(&self) -> TokenView {
        TokenView { id: self.id@, expires: self.expires as int, tenant: self.tenant@ }
    }
}

/// The authenticated user and the roles granted to it.
#[derive(Debug)]
pub struct ResponseAccessUser {
    pub id: String,
    pub name: String,
    pub roles: Vec<ResponseAccessIdName>,
}

/// The mathematical shape of a [`ResponseAccessUser`].
pub struct UserView {
    pub id: Seq<char>,
    pub name: Seq<char>,
    pub roles: Seq<IdNameView>,
}

impl View for ResponseAccessUser {
    type V = UserView;

    open spec fn view(&self) -> UserView {
        UserView {
            id: self.id@,
            name: self.name@,
            roles: Seq::new(self.roles@.len(), |i: int| self.roles@[i]@),
        }
    }
}

/// One regional endpoint of a catalogued service.
#[derive(Debug)]
pub struct ResponseAccessServiceCatalogEndpoint {
    pub region: String,
    pub public_url: String,
    pub id: String,
}

/// The mathematical shape of a [`ResponseAccessServiceCatalogEndpoint`].
pub struct EndpointView {
    pub region: Seq<char>,
    pub public_url: Seq<char>,
    pub id: Seq<char>,
}

impl View for ResponseAccessServiceCatalogEndpoint {
    type V = EndpointView;

    open spec fn view(&self) -> EndpointView {
        EndpointView { region: self.region@, public_url: self.public_url@, id: self.id@ }
    }
}

/// One catalogued service: its endpoints, name and type.
#[derive(Debug)]
pub struct ResponseAccessServiceCatalog {
    pub endpoints: Vec<ResponseAccessServiceCatalogEndpoint>,
    pub name: String,
    pub _type: String,
}

/// The mathematical shape of a [`ResponseAccessServiceCatalog`].
pub struct CatalogView {
    pub endpoints: Seq<EndpointView>,
    pub name: Seq<char>,
    pub service_type: Seq<char>,
}

impl View for ResponseAccessServiceCatalog {
    type V = CatalogView;

    open spec fn view(&self) -> CatalogView {
        CatalogView {
            endpoints: Seq::new(self.endpoints@.len(), |i: int| self.endpoints@[i]@),
            name: self.name@,
            service_type: self._type@,
        }
    }
}

/// The full access descriptor of a successful v2 authentication.
#[derive(Debug)]
pub struct ResponseAccess {
    pub token: ResponseAccessToken,
    pub user: ResponseAccessUser,
    pub service_catalog: Vec<ResponseAccessServiceCatalog>,
}

/// The mathematical shape of a [`ResponseAccess`].
pub struct AccessView {
    pub token: TokenView,
    pub user: UserView,
    pub service_catalog: Seq<CatalogView>,
}

impl View for ResponseAccess {
    type V = AccessView;

    open spec fn view(&self) -> AccessView {
        AccessView {
            token: self.token@,
            user: self.user@,
            service_catalog: Seq::new(self.service_catalog@.len(), |i: int| self.service_catalog@[i]@),
        }
    }
}

/// A successful v2 authentication, as the wire carries it: one `access`
/// member holding the descriptor.
#[derive(Debug)]
pub struct Response {
    pub access: ResponseAccess,
}

/// The mathematical shape of a v2 [`Response`].
pub struct ResponseView {
    pub access: AccessView,
}

impl View for Response {
    type V = ResponseView;

    open spec fn view(&self) -> ResponseView {
        ResponseView { access: self.access@ }
    }
}

impl Response {
    /// Whether the token's expiry lies strictly before the given moment, in
    /// milliseconds since the Unix epoch.
    pub fn is_expired_at(&self, now: i64) -> (r: bool)
        ensures
            r == (self@.access.token.expires < now as int),
    {
        self.access.token.expires < now
    }

    /// Whether the token is already expired relative to the current
    /// wall-clock time, re-read on every call rather than cached.
    pub fn is_token_expired(&self) -> bool {
        let now = now_ms();
        self.is_expired_at(now)
    }
}

/// The error descriptor an identity service returns beside a non-success
/// status.
#[derive(Debug)]
pub struct ErrorResponseError {
    message: String,
    code: i32,
    title: String,
}

/// The mathematical shape of an [`ErrorResponseError`].
pub struct ErrDescView {
    pub message: Seq<char>,
    pub code: int,
    pub title: Seq<char>,
}

impl View for ErrorResponseError {
    type V = ErrDescView;

    closed spec fn view(&self) -> ErrDescView {
        ErrDescView { message: self.message@, code: self.code as int, title: self.title@ }
    }
}

/// An error reply, as the wire carries it: one `error` member holding the
/// descriptor.
#[derive(Debug)]
pub struct ErrorResponse {
    error: ErrorResponseError,
}

/// The mathematical shape of an [`ErrorResponse`].
pub struct ErrRespView {
    pub error: ErrDescView,
}

impl View for ErrorResponse {
    type V = ErrRespView;

    closed spec fn view(&self) -> ErrRespView {
        ErrRespView { error: self.error@ }
    }
}

/// The descriptor a name-with-optional-identifier object denotes: the `name`
/// member must be a string; an `id` member, if present, must be a string or
/// null.
pub open spec fn idname_of_json(j: JsonRep) -> Option<IdNameView> {
    if j.has("name"@) && j.at("name"@) is Str && (j.has("id"@) ==> (j.at("id"@) is Str || j.at(
        "id"@,
    ) is Null)) {
        Some(
            IdNameView {
                id: if j.has("id"@) && j.at("id"@) is Str {
                    Some(j.at("id"@).str_chars())
                } else {
                    None
                },
                name: j.at("name"@).str_chars(),
            },
        )
    } else {
        None
    }
}

/// Whether every element denotes a name-with-optional-identifier.
pub open spec fn idnames_ok(s: Seq<JsonRep>) -> bool {
    forall|i: int| 0 <= i < s.len() ==> (#[trigger] idname_of_json(s[i])) is Some
}

/// The descriptors the elements denote, in order.
pub open spec fn idnames_of_json(s: Seq<JsonRep>) -> Seq<IdNameView> {
    Seq::new(s.len(), |i: int| idname_of_json(s[i]).unwrap())
}

/// The token a token object denotes: string `id`, string `expires` holding a
/// well-formed RFC 3339 date-time, and a `tenant` name-with-identifier.
pub open spec fn token_of_json(j: JsonRep) -> Option<TokenView> {
    if j.has("id"@) && j.at("id"@) is Str && j.has("expires"@) && j.at("expires"@) is Str
        && rfc3339_ms(j.at("expires"@).str_chars()) is Some && j.has("tenant"@) && idname_of_json(
        j.at("tenant"@),
    ) is Some {
        Some(
            TokenView {
                id: j.at("id"@).str_chars(),
                expires: rfc3339_ms(j.at("expires"@).str_chars()).unwrap(),
                tenant: idname_of_json(j.at("tenant"@)).unwrap(),
            },
        )
    } else {
        None
    }
}

/// The user a user object denotes: string `id` and `name`, and an array of
/// roles, each a name-with-optional-identifier.
pub open spec fn user_of_json(j: JsonRep) -> Option<UserView> {
    if j.has("id"@) && j.at("id"@) is Str && j.has("name"@) && j.at("name"@) is Str && j.has(
        "roles"@,
    ) && j.at("roles"@) is Arr && idnames_ok(j.at("roles"@).arr_elems()) {
        Some(
            UserView {
                id: j.at("id"@).str_chars(),
                name: j.at("name"@).str_chars(),
                roles: idnames_of_json(j.at("roles"@).arr_elems()),
            },
        )
    } else {
        None
    }
}

/// The endpoint an endpoint object denotes: string `region`, `publicURL`
/// and `id`.
pub open spec fn endpoint_of_json(j: JsonRep) -> Option<EndpointView> {
    if j.has("region"@) && j.at("region"@) is Str && j.has("publicURL"@) && j.at(
        "publicURL"@,
    ) is Str && j.has("id"@) && j.at("id"@) is Str {
        Some(
            EndpointView {
                region: j.at("region"@).str_chars(),
                public_url: j.at("publicURL"@).str_chars(),
                id: j.at("id"@).str_chars(),
            },
        )
    } else {
        None
    }
}

/// Whether every element denotes an endpoint.
pub open spec fn endpoints_ok(s: Seq<JsonRep>) -> bool {
    forall|i: int| 0 <= i < s.len() ==> (#[trigger] endpoint_of_json(s[i])) is Some
}

/// The endpoints the elements denote, in order.
pub open spec fn endpoints_of_json(s: Seq<JsonRep>) -> Seq<EndpointView> {
    Seq::new(s.len(), |i: int| endpoint_of_json(s[i]).unwrap())
}

/// The catalogue entry a service object denotes: an array of endpoints and
/// string `name` and `type`.
pub open spec fn catalog_of_json(j: JsonRep) -> Option<CatalogView> {
    if j.has("endpoints"@) && j.at("endpoints"@) is Arr && endpoints_ok(
        j.at("endpoints"@).arr_elems(),
    ) && j.has("name"@) && j.at("name"@) is Str && j.has("type"@) && j.at("type"@) is Str {
        Some(
            CatalogView {
                endpoints: endpoints_of_json(j.at("endpoints"@).arr_elems()),
                name: j.at("name"@).str_chars(),
                service_type: j.at("type"@).str_chars(),
            },
        )
    } else {
        None
    }
}

/// Whether every element denotes a catalogue entry.
pub open spec fn catalogs_ok(s: Seq<JsonRep>) -> bool {
    forall|i: int| 0 <= i < s.len() ==> (#[trigger] catalog_of_json(s[i])) is Some
}

/// The catalogue entries the elements denote, in order.
pub open spec fn catalogs_of_json(s: Seq<JsonRep>) -> Seq<CatalogView> {
    Seq::new(s.len(), |i: int| catalog_of_json(s[i]).unwrap())
}

/// The access descriptor a success body denotes: one `access` object holding
/// a token, a user and a `serviceCatalog` array. Members beyond these are
/// ignored, as the wire format allows.
pub open spec fn access_of_json(j: JsonRep) -> Option<ResponseView> {
    if j.has("access"@) && {
        let a = j.at("access"@);
        a.has("token"@) && token_of_json(a.at("token"@)) is Some && a.has("user"@) && user_of_json(
            a.at("user"@),
        ) is Some && a.has("serviceCatalog"@) && a.at("serviceCatalog"@) is Arr && catalogs_ok(
            a.at("serviceCatalog"@).arr_elems(),
        )
    } {
        Some(
            ResponseView {
                access: AccessView {
                    token: token_of_json(j.at("access"@).at("token"@)).unwrap(),
                    user: user_of_json(j.at("access"@).at("user"@)).unwrap(),
                    service_catalog: catalogs_of_json(
                        j.at("access"@).at("serviceCatalog"@).arr_elems(),
                    ),
                },
            },
        )
    } else {
        None
    }
}

/// The error descriptor an error body denotes: one `error` object holding a
/// string `message`, an integer `code` within the `i32` range, and a string
/// `title`.
pub open spec fn errresp_of_json(j: JsonRep) -> Option<ErrRespView> {
    if j.has("error"@) && {
        let e = j.at("error"@);
        e.has("message"@) && e.at("message"@) is Str && e.has("code"@) && e.at("code"@) is Int
            && i32::MIN as int <= e.at("code"@).int_val() && e.at("code"@).int_val()
            <= i32::MAX as int && e.has("title"@) && e.at("title"@) is Str
    } {
        Some(
            ErrRespView {
                error: ErrDescView {
                    message: j.at("error"@).at("message"@).str_chars(),
                    code: j.at("error"@).at("code"@).int_val(),
                    title: j.at("error"@).at("title"@).str_chars(),
                },
            },
        )
    } else {
        None
    }
}

/// The text of the `Generic` failure built from an error descriptor: the
/// code, the title and the message.
pub open spec fn err_msg(d: ErrDescView) -> Seq<char> {
    dec_str(d.code) + " "@ + d.title + ": "@ + d.message
}

/// The message of the failure on a body that parses as JSON but does not
/// match the expected shape.
pub const BAD_SHAPE_TEXT: &'static str = "response body does not match the expected shape";

/// The JSON payload a v2 client sends: the credentials and the tenant name,
/// in the wire protocol's camel-case member names.
pub open spec fn payload_json(username: Seq<char>, password: Seq<char>, tenant: Seq<char>) -> Seq<
    char,
> {
    "{\"auth\":{\"passwordCredentials\":{\"username\":\""@ + esc(username) + "\",\"password\":\""@
        + esc(password) + "\"},\"tenantName\":\""@ + esc(tenant) + "\"}}"@
}

/// The parts of the transport's reply that the v2 protocol reads: the status
/// code and the full body, read to text.
#[derive(Debug)]
pub struct ServerReply {
    pub status: u16,
    pub body: String,
}

/// The mathematical shape of a v2 [`ServerReply`].
pub struct ReplyView {
    pub status: u16,
    pub body: Seq<char>,
}

impl View for ServerReply {
    type V = ReplyView;

    open spec fn view(&self) -> ReplyView {
        ReplyView { status: self.status, body: self.body@ }
    }
}

/// What interpreting a v2 reply yields, for every reply.
///
/// A body that is not well-formed JSON fails as an encoding failure carrying
/// the parser's text, whatever the status. On a success status the body must
/// denote an access descriptor; on any other status it must denote an error
/// descriptor, whose code, title and message become the `Generic` text.
/// Either shape violation is an encoding failure with a fixed message.
pub open spec fn v2_outcome(rep: ReplyView) -> Result<ResponseView, ErrView> {
    match json_doc(rep.body) {
        None => Err(ErrView::EncodingFailure(json_err(rep.body))),
        Some(j) => {
            if 200 <= rep.status < 300 {
                match access_of_json(j) {
                    Some(v) => Ok(v),
                    None => Err(ErrView::EncodingFailure(BAD_SHAPE_TEXT@)),
                }
            } else {
                match errresp_of_json(j) {
                    Some(er) => Err(ErrView::Generic(err_msg(er.error))),
                    None => Err(ErrView::EncodingFailure(BAD_SHAPE_TEXT@)),
                }
            }
        },
    }
}

/// Whether a result is the one interpretation of the reply.
pub open spec fn v2_interpretation(rep: ReplyView, r: Result<Response, Error>) -> bool {
    match v2_outcome(rep) {
        Ok(v) => r matches Ok(x) && x@ == v,
        Err(e) => r matches Err(x) && x@ == e,
    }
}

/// The request headers a v2 client precomputes.
pub open spec fn v2_headers() -> Seq<(Seq<char>, Seq<char>)> {
    seq![
        ("Content-Type"@, "application/json"@),
        ("Accept"@, "application/json"@),
        ("User-Agent"@, USER_AGENT@),
    ]
}

/// The v2 protocol client: immutable, call-scoped configuration fixed at
/// construction.
#[derive(Debug)]
pub struct Client {
    headers: Vec<(String, String)>,
    password: String,
    tenant: String,
    timeout: u64,
    url: String,
    username: String,
}

impl Client {
    /// The serialized token-endpoint URL the client will contact.
    pub closed spec fn spec_url(&self) -> Seq<char> {
        self.url@
    }

    /// The precomputed request headers.
    pub closed spec fn spec_headers(&self) -> Seq<(Seq<char>, Seq<char>)> {
        pairs_view(self.headers@)
    }

    /// The read timeout, in milliseconds.
    pub closed spec fn spec_timeout(&self) -> u64 {
        self.timeout
    }

    /// The configured user name.
    pub closed spec fn spec_username(&self) -> Seq<char> {
        self.username@
    }

    /// The configured password.
    pub closed spec fn spec_password(&self) -> Seq<char> {
        self.password@
    }

    /// The configured tenant name.
    pub closed spec fn spec_tenant(&self) -> Seq<char> {
        self.tenant@
    }

    /// Builds a client for the given endpoint, credentials and tenant, with
    /// the given read timeout in milliseconds (ten seconds when none is
    /// given). The stored URL is the endpoint resolved against the relative
    /// path `tokens`; construction succeeds exactly when the endpoint parses
    /// as a valid URL and that resolution succeeds.
    pub fn new(
        url: &str,
        username: &str,
        password: &str,
        tenant: &str,
        timeout: Option<u64>,
    ) -> (r: Result<Client, Error>)
        ensures
            r is Ok <==> url_tokens(url@) is Some,
            r matches Ok(c) ==> {
                &&& url_tokens(url@) matches Some(n) && c.spec_url() == n
                &&& c.spec_headers() == v2_headers()
                &&& c.spec_username() == username@
                &&& c.spec_password() == password@
                &&& c.spec_tenant() == tenant@
                &&& c.spec_timeout() == (match timeout {
                    Some(ms) => ms,
                    None => DEFAULT_TIMEOUT_MS,
                })
            },
            r matches Err(e) ==> e@ is InvalidEndpoint,
    {
        let url_s = match resolve_tokens_endpoint(url) {
            Ok(u) => u,
            Err(m) => {
                return Err(Error::InvalidEndpoint(m));
            },
        };
        let mut headers: Vec<(String, String)> = Vec::new();
        headers.push((String::from_str("Content-Type"), String::from_str("application/json")));
        headers.push((String::from_str("Accept"), String::from_str("application/json")));
        headers.push((String::from_str("User-Agent"), String::from_str(USER_AGENT)));
        let t: u64 = match timeout {
            Some(ms) => ms,
            None => DEFAULT_TIMEOUT_MS,
        };
        let c = Client {
            headers,
            password: String::from_str(password),
            tenant: String::from_str(tenant),
            timeout: t,
            url: url_s,
            username: String::from_str(username),
        };
        proof {
            assert(c.spec_headers() =~= v2_headers());
        }
        Ok(c)
    }

    /// The read timeout, in milliseconds.
    pub fn timeout(&self) -> (r: u64)
        ensures
            r == self.spec_timeout(),
    {
        self.timeout
    }

    /// The JSON payload this client sends: its credentials and tenant, each
    /// escaped for a JSON string literal.
    pub fn payload(&self) -> (r: String)
        ensures
            r@ == payload_json(self.spec_username(), self.spec_password(), self.spec_tenant()),
    {
        let mut out = String::from_str("{\"auth\":{\"passwordCredentials\":{\"username\":\"");
        append_escaped(&mut out, self.username.as_str());
        out.append("\",\"password\":\"");
        append_escaped(&mut out, self.password.as_str());
        out.append("\"},\"tenantName\":\"");
        append_escaped(&mut out, self.tenant.as_str());
        out.append("\"}}");
        proof {
            assert(out@ =~= payload_json(
                self.spec_username(),
                self.spec_password(),
                self.spec_tenant(),
            ));
        }
        out
    }

    /// The one request this client sends: a POST of the JSON payload to the
    /// resolved token URL with the precomputed headers.
    pub fn request(&self) -> (r: HttpRequest)
        ensures
            r.method is Post,
            r.url@ == self.spec_url(),
            pairs_view(r.headers@) == self.spec_headers(),
            r.body matches Some(b) && b@ == payload_json(
                self.spec_username(),
                self.spec_password(),
                self.spec_tenant(),
            ),
    {
        HttpRequest {
            method: Method::Post,
            url: self.url.clone(),
            headers: clone_headers(&self.headers),
            body: Some(self.payload()),
        }
    }

    /// Interprets the transport's reply, as [`v2_outcome`] describes.
    pub fn interpret(&self, reply: &ServerReply) -> (r: Result<Response, Error>)
        ensures
            v2_interpretation(reply@, r),
    {
        let v = match parse_json(reply.body.as_str()) {
            Ok(v) => v,
            Err(m) => {
                return Err(Error::EncodingFailure(m));
            },
        };
        if 200 <= reply.status && reply.status < 300 {
            match extract_response(&v) {
                Some(resp) => Ok(resp),
                None => Err(Error::EncodingFailure(String::from_str(BAD_SHAPE_TEXT))),
            }
        } else {
            match extract_error(&v) {
                Some(er) => Err(Error::Generic(format_error(&er))),
                None => Err(Error::EncodingFailure(String::from_str(BAD_SHAPE_TEXT))),
            }
        }
    }
}

/// Reads a name-with-optional-identifier object, as [`idname_of_json`]
/// describes.
fn extract_idname(v: &serde_json::Value) -> (r: Option<ResponseAccessIdName>)
    ensures
        r is Some <==> idname_of_json(json_view(*v)) is Some,
        r matches Some(x) ==> idname_of_json(json_view(*v)) matches Some(iv) && x@ == iv,
{
    let name = match get_field(v, "name") {
        Some(nv) => match get_str(nv) {
            Some(s) => s,
            None => {
                return None;
            },
        },
        None => {
            return None;
        },
    };
    let id = match get_field(v, "id") {
        None => None,
        Some(idv) => {
            if is_null(idv) {
                None
            } else {
                match get_str(idv) {
                    Some(s) => Some(s),
                    None => {
                        return None;
                    },
                }
            }
        },
    };
    Some(ResponseAccessIdName { id, name })
}

/// Reads a token object, as [`token_of_json`] describes.
fn extract_token(v: &serde_json::Value) -> (r: Option<ResponseAccessToken>)
    ensures
        r is Some <==> token_of_json(json_view(*v)) is Some,
        r matches Some(x) ==> token_of_json(json_view(*v)) matches Some(tv) && x@ == tv,
{
    let id = match get_field(v, "id") {
        Some(x) => match get_str(x) {
            Some(s) => s,
            None => {
                return None;
            },
        },
        None => {
            return None;
        },
    };
    let expires_text = match get_field(v, "expires") {
        Some(x) => match get_str(x) {
            Some(s) => s,
            None => {
                return None;
            },
        },
        None => {
            return None;
        },
    };
    let expires = match parse_rfc3339_ms(expires_text.as_str()) {
        Some(ms) => ms,
        None => {
            return None;
        },
    };
    let tenant = match get_field(v, "tenant") {
        Some(x) => match extract_idname(x) {
            Some(t) => t,
            None => {
                return None;
            },
        },
        None => {
            return None;
        },
    };
    Some(ResponseAccessToken { id, expires, tenant })
}

/// Reads a user object, as [`user_of_json`] describes.
#[verifier::loop_isolation(false)]
fn extract_user(v: &serde_json::Value) -> (r: Option<ResponseAccessUser>)
    ensures
        r is Some <==> user_of_json(json_view(*v)) is Some,
        r matches Some(x) ==> user_of_json(json_view(*v)) matches Some(uv) && x@ == uv,
{
    let id = match get_field(v, "id") {
        Some(x) => match get_str(x) {
            Some(s) => s,
            None => {
                return None;
            },
        },
        None => {
            return None;
        },
    };
    let name = match get_field(v, "name") {
        Some(x) => match get_str(x) {
            Some(s) => s,
            None => {
                return None;
            },
        },
        None => {
            return None;
        },
    };
    let roles_v = match get_field(v, "roles") {
        Some(x) => x,
        None => {
            return None;
        },
    };
    let arr = match get_arr(roles_v) {
        Some(a) => a,
        None => {
            return None;
        },
    };
    let ghost s = json_view(*roles_v).arr_elems();
    let mut roles: Vec<ResponseAccessIdName> = Vec::new();
    let mut i: usize = 0;
    while i < arr.len()
        invariant
            i <= arr@.len(),
            arr@.len() == s.len(),
            forall|k: int| 0 <= k < s.len() ==> #[trigger] json_view(arr@[k]) == s[k],
            forall|k: int| 0 <= k < i ==> (#[trigger] idname_of_json(s[k])) is Some,
            roles@.len() == i,
            forall|k: int| 0 <= k < i ==> #[trigger] roles@[k]@ == idname_of_json(s[k]).unwrap(),
        decreases arr@.len() - i,
    {
        match extract_idname(&arr[i]) {
            Some(x) => roles.push(x),
            None => {
                proof {
                    assert(idname_of_json(s[i as int]) is None);
                    assert(!idnames_ok(s));
                }
                return None;
            },
        }
        i = i + 1;
    }
    let u = ResponseAccessUser { id, name, roles };
    proof {
        assert(Seq::new(u.roles@.len(), |k: int| u.roles@[k]@) =~= idnames_of_json(s));
    }
    Some(u)
}

/// Reads an endpoint object, as [`endpoint_of_json`] describes.
fn extract_endpoint(v: &serde_json::Value) -> (r: Option<ResponseAccessServiceCatalogEndpoint>)
    ensures
        r is Some <==> endpoint_of_json(json_view(*v)) is Some,
        r matches Some(x) ==> endpoint_of_json(json_view(*v)) matches Some(ev) && x@ == ev,
{
    let region = match get_field(v, "region") {
        Some(x) => match get_str(x) {
            Some(s) => s,
            None => {
                return None;
            },
        },
        None => {
            return None;
        },
    };
    let public_url = match get_field(v, "publicURL") {
        Some(x) => match get_str(x) {
            Some(s) => s,
            None => {
                return None;
            },
        },
        None => {
            return None;
        },
    };
    let id = match get_field(v, "id") {
        Some(x) => match get_str(x) {
            Some(s) => s,
            None => {
                return None;
            },
        },
        None => {
            return None;
        },
    };
    Some(ResponseAccessServiceCatalogEndpoint { region, public_url, id })
}

/// Reads a catalogue entry, as [`catalog_of_json`] describes.
#[verifier::loop_isolation(false)]
fn extract_catalog(v: &serde_json::Value) -> (r: Option<ResponseAccessServiceCatalog>)
    ensures
        r is Some <==> catalog_of_json(json_view(*v)) is Some,
        r matches Some(x) ==> catalog_of_json(json_view(*v)) matches Some(cv) && x@ == cv,
{
    let eps_v = match get_field(v, "endpoints") {
        Some(x) => x,
        None => {
            return None;
        },
    };
    let arr = match get_arr(eps_v) {
        Some(a) => a,
        None => {
            return None;
        },
    };
    let ghost s = json_view(*eps_v).arr_elems();
    let mut endpoints: Vec<ResponseAccessServiceCatalogEndpoint> = Vec::new();
    let mut i: usize = 0;
    while i < arr.len()
        invariant
            i <= arr@.len(),
            arr@.len() == s.len(),
            forall|k: int| 0 <= k < s.len() ==> #[trigger] json_view(arr@[k]) == s[k],
            forall|k: int| 0 <= k < i ==> (#[trigger] endpoint_of_json(s[k])) is Some,
            endpoints@.len() == i,
            forall|k: int| 0 <= k < i ==> #[trigger] endpoints@[k]@ == endpoint_of_json(
                s[k],
            ).unwrap(),
        decreases arr@.len() - i,
    {
        match extract_endpoint(&arr[i]) {
            Some(x) => endpoints.push(x),
            None => {
                proof {
                    assert(endpoint_of_json(s[i as int]) is None);
                    assert(!endpoints_ok(s));
                }
                return None;
            },
        }
        i = i + 1;
    }
    let name = match get_field(v, "name") {
        Some(x) => match get_str(x) {
            Some(s2) => s2,
            None => {
                return None;
            },
        },
        None => {
            return None;
        },
    };
    let service_type = match get_field(v, "type") {
        Some(x) => match get_str(x) {
            Some(s2) => s2,
            None => {
                return None;
            },
        },
        None => {
            return None;
        },
    };
    let c = ResponseAccessServiceCatalog { endpoints, name, _type: service_type };
    proof {
        assert(Seq::new(c.endpoints@.len(), |k: int| c.endpoints@[k]@) =~= endpoints_of_json(s));
    }
    Some(c)
}

/// Reads a success body, as [`access_of_json`] describes.
#[verifier::loop_isolation(false)]
fn extract_response(v: &serde_json::Value) -> (r: Option<Response>)
    ensures
        r is Some <==> access_of_json(json_view(*v)) is Some,
        r matches Some(x) ==> access_of_json(json_view(*v)) matches Some(rv) && x@ == rv,
{
    let access_v = match get_field(v, "access") {
        Some(x) => x,
        None => {
            return None;
        },
    };
    let token = match get_field(access_v, "token") {
        Some(x) => match extract_token(x) {
            Some(t) => t,
            None => {
                return None;
            },
        },
        None => {
            return None;
        },
    };
    let user = match get_field(access_v, "user") {
        Some(x) => match extract_user(x) {
            Some(u) => u,
            None => {
                return None;
            },
        },
        None => {
            return None;
        },
    };
    let sc_v = match get_field(access_v, "serviceCatalog") {
        Some(x) => x,
        None => {
            return None;
        },
    };
    let arr = match get_arr(sc_v) {
        Some(a) => a,
        None => {
            return None;
        },
    };
    let ghost s = json_view(*sc_v).arr_elems();
    let mut service_catalog: Vec<ResponseAccessServiceCatalog> = Vec::new();
    let mut i: usize = 0;
    while i < arr.len()
        invariant
            i <= arr@.len(),
            arr@.len() == s.len(),
            forall|k: int| 0 <= k < s.len() ==> #[trigger] json_view(arr@[k]) == s[k],
            forall|k: int| 0 <= k < i ==> (#[trigger] catalog_of_json(s[k])) is Some,
            service_catalog@.len() == i,
            forall|k: int| 0 <= k < i ==> #[trigger] service_catalog@[k]@ == catalog_of_json(
                s[k],
            ).unwrap(),
        decreases arr@.len() - i,
    {
        match extract_catalog(&arr[i]) {
            Some(x) => service_catalog.push(x),
            None => {
                proof {
                    assert(catalog_of_json(s[i as int]) is None);
                    assert(!catalogs_ok(s));
                }
                return None;
            },
        }
        i = i + 1;
    }
    let resp = Response { access: ResponseAccess { token, user, service_catalog } };
    proof {
        assert(Seq::new(resp.access.service_catalog@.len(), |k: int| resp.access.service_catalog@[k]@)
            =~= catalogs_of_json(s));
    }
    Some(resp)
}

/// Reads an error body, as [`errresp_of_json`] describes.
fn extract_error(v: &serde_json::Value) -> (r: Option<ErrorResponse>)
    ensures
        r is Some <==> errresp_of_json(json_view(*v)) is Some,
        r matches Some(x) ==> errresp_of_json(json_view(*v)) matches Some(ev) && x@ == ev,
{
    let err_v = match get_field(v, "error") {
        Some(x) => x,
        None => {
            return None;
        },
    };
    let message = match get_field(err_v, "message") {
        Some(x) => match get_str(x) {
            Some(s) => s,
            None => {
                return None;
            },
        },
        None => {
            return None;
        },
    };
    let code64 = match get_field(err_v, "code") {
        Some(x) => match get_i64(x) {
            Some(n) => n,
            None => {
                return None;
            },
        },
        None => {
            return None;
        },
    };
    if code64 < i32::MIN as i64 || code64 > i32::MAX as i64 {
        return None;
    }
    let code: i32 = code64 as i32;
    let title = match get_field(err_v, "title") {
        Some(x) => match get_str(x) {
            Some(s) => s,
            None => {
                return None;
            },
        },
        None => {
            return None;
        },
    };
    Some(ErrorResponse { error: ErrorResponseError { message, code, title } })
}

/// Builds the `Generic` failure text from an error descriptor, as
/// [`err_msg`] describes.
fn format_error(er: &ErrorResponse) -> (r: String)
    ensures
        r@ == err_msg(er@.error),
{
    let r = int_to_string(er.error.code as i64)
        .concat(" ")
        .concat(er.error.title.as_str())
        .concat(": ")
        .concat(er.error.message.as_str());
    proof {
        assert(r@ =~= err_msg(er@.error));
    }
    r
}

/// One reply has one interpretation: any two results that interpret the same
/// reply are structurally identical. The client holds no mutable state, so a
/// second call against an unchanged server repeats the first.
pub proof fn lemma_v2_interpret_deterministic(
    rep: ReplyView,
    r1: Result<Response, Error>,
    r2: Result<Response, Error>,
)
    requires
        v2_interpretation(rep, r1),
        v2_interpretation(rep, r2),
    ensures
        results_alike(r1, r2),
{
}

} // verus!
