use swift_keystone::authv2::{Client, ServerReply};
use swift_keystone::error::Error;
use swift_keystone::http::Method;

fn client() -> Client {
    Client::new("http://127.0.0.1:5000/v2.0/", "tester", "testing", "test", None).unwrap()
}

fn reply(status: u16, body: &str) -> ServerReply {
    ServerReply { status, body: body.to_string() }
}

const ACCESS_BODY: &str = "{\
        \"access\":{\
            \"token\":{\
                \"id\":\"tok-1\",\
                \"expires\":\"2000-01-02T03:04:05Z\",\
                \"tenant\":{\"id\":\"t-1\",\"name\":\"test\"}\
            },\
            \"user\":{\
                \"id\":\"u-1\",\
                \"name\":\"tester\",\
                \"roles\":[{\"name\":\"admin\"},{\"id\":null,\"name\":\"member\"}]\
            },\
            \"serviceCatalog\":[\
                {\
                    \"endpoints\":[\
                        {\"region\":\"RegionOne\",\"publicURL\":\"http://svc/1\",\"id\":\"e-1\"}\
                    ],\
                    \"name\":\"swift\",\
                    \"type\":\"object-store\"\
                }\
            ]\
        }\
    }";

#[test]
fn construction_resolves_the_token_path() {
    let c = Client::new("http://h/v2.0/", "u", "p", "t", None).unwrap();
    let req = c.request();
    assert!(matches!(req.method, Method::Post));
    assert_eq!(req.url, "http://h/v2.0/tokens");
    // Without a trailing slash the last segment is replaced, as URL
    // resolution prescribes.
    let c = Client::new("http://h/v2.0", "u", "p", "t", None).unwrap();
    assert_eq!(c.request().url, "http://h/tokens");
}

#[test]
fn construction_fails_on_invalid_base_url() {
    assert!(matches!(
        Client::new("::not a url::", "u", "p", "t", None),
        Err(Error::InvalidEndpoint(_))
    ));
}

#[test]
fn request_carries_json_headers_and_payload() {
    let req = client().request();
    assert_eq!(req.headers.len(), 3);
    assert_eq!(req.headers[0].0, "Content-Type");
    assert_eq!(req.headers[0].1, "application/json");
    assert_eq!(req.headers[1].0, "Accept");
    assert_eq!(req.headers[1].1, "application/json");
    assert_eq!(req.headers[2].0, "User-Agent");
    let body = req.body.expect("a v2 request carries a body");
    assert_eq!(
        body,
        "{\"auth\":{\"passwordCredentials\":{\"username\":\"tester\",\
         \"password\":\"testing\"},\"tenantName\":\"test\"}}"
    );
}

#[test]
fn payload_escapes_special_characters() {
    let c = Client::new("http://h/", "a\"b", "p\\q\n", "t\u{1}", None).unwrap();
    let payload = c.payload();
    assert_eq!(
        payload,
        "{\"auth\":{\"passwordCredentials\":{\"username\":\"a\\\"b\",\
         \"password\":\"p\\\\q\\n\"},\"tenantName\":\"t\\u0001\"}}"
    );
    // The payload round-trips through a JSON parser to the original values.
    let v: serde_json::Value = serde_json::from_str(&payload).unwrap();
    let auth = v.get("auth").unwrap();
    let creds = auth.get("passwordCredentials").unwrap();
    assert_eq!(creds.get("username").unwrap().as_str().unwrap(), "a\"b");
    assert_eq!(creds.get("password").unwrap().as_str().unwrap(), "p\\q\n");
    assert_eq!(auth.get("tenantName").unwrap().as_str().unwrap(), "t\u{1}");
}

#[test]
fn success_body_yields_the_full_descriptor() {
    let r = client().interpret(&reply(200, ACCESS_BODY)).unwrap();
    let access = &r.access;
    assert_eq!(access.token.id, "tok-1");
    assert_eq!(access.token.tenant.name, "test");
    assert_eq!(access.token.tenant.id.as_deref(), Some("t-1"));
    assert_eq!(access.user.id, "u-1");
    assert_eq!(access.user.name, "tester");
    assert_eq!(access.user.roles.len(), 2);
    assert_eq!(access.user.roles[0].name, "admin");
    assert_eq!(access.user.roles[0].id, None);
    assert_eq!(access.user.roles[1].name, "member");
    assert_eq!(access.user.roles[1].id, None);
    assert_eq!(access.service_catalog.len(), 1);
    assert_eq!(access.service_catalog[0].name, "swift");
    assert_eq!(access.service_catalog[0]._type, "object-store");
    assert_eq!(access.service_catalog[0].endpoints.len(), 1);
    assert_eq!(access.service_catalog[0].endpoints[0].region, "RegionOne");
    assert_eq!(access.service_catalog[0].endpoints[0].public_url, "http://svc/1");
    assert_eq!(access.service_catalog[0].endpoints[0].id, "e-1");
}

#[test]
fn past_expiry_reads_as_expired() {
    let r = client().interpret(&reply(200, ACCESS_BODY)).unwrap();
    // The expiry lies in the year 2000, long before any present moment.
    assert!(r.is_token_expired());
    // 2000-01-02T03:04:05Z in milliseconds since the epoch.
    let expires_ms: i64 = 946782245000;
    assert!(r.is_expired_at(expires_ms + 1));
    assert!(!r.is_expired_at(expires_ms));
    assert!(!r.is_expired_at(expires_ms - 1));
}

#[test]
fn future_expiry_reads_as_not_expired() {
    let body = ACCESS_BODY.replace("2000-01-02T03:04:05Z", "2999-01-02T03:04:05Z");
    let r = client().interpret(&reply(200, &body)).unwrap();
    assert!(!r.is_token_expired());
}

#[test]
fn error_body_yields_the_exact_generic_text() {
    let body = "{\"error\":{\"code\":401,\"title\":\"Unauthorized\",\"message\":\"Bad creds\"}}";
    match client().interpret(&reply(401, body)) {
        Err(Error::Generic(m)) => assert_eq!(m, "401 Unauthorized: Bad creds"),
        other => panic!("expected a Generic failure, got {:?}", other),
    }
}

#[test]
fn malformed_success_body_is_an_encoding_failure() {
    let r = client().interpret(&reply(200, "{ not json"));
    assert!(matches!(r, Err(Error::EncodingFailure(_))));
    assert!(!matches!(r, Err(Error::Generic(_))));
}

#[test]
fn malformed_error_body_is_an_encoding_failure() {
    let r = client().interpret(&reply(401, "oops"));
    assert!(matches!(r, Err(Error::EncodingFailure(_))));
    let r = client().interpret(&reply(401, "[1,2]"));
    assert!(matches!(r, Err(Error::EncodingFailure(_))));
}

#[test]
fn success_body_of_the_wrong_shape_is_an_encoding_failure() {
    let r = client().interpret(&reply(200, "{}"));
    assert!(matches!(r, Err(Error::EncodingFailure(_))));
    let missing_user = "{\"access\":{\"token\":{\"id\":\"t\",\
        \"expires\":\"2000-01-02T03:04:05Z\",\"tenant\":{\"name\":\"n\"}}}}";
    let r = client().interpret(&reply(200, missing_user));
    assert!(matches!(r, Err(Error::EncodingFailure(_))));
}

#[test]
fn unparseable_expiry_is_an_encoding_failure() {
    let body = ACCESS_BODY.replace("2000-01-02T03:04:05Z", "yesterday");
    let r = client().interpret(&reply(200, &body));
    assert!(matches!(r, Err(Error::EncodingFailure(_))));
}

#[test]
fn error_code_is_rendered_in_decimal() {
    let body = "{\"error\":{\"code\":-7,\"title\":\"T\",\"message\":\"m\"}}";
    match client().interpret(&reply(500, body)) {
        Err(Error::Generic(m)) => assert_eq!(m, "-7 T: m"),
        other => panic!("expected a Generic failure, got {:?}", other),
    }
    let body = "{\"error\":{\"code\":0,\"title\":\"T\",\"message\":\"m\"}}";
    match client().interpret(&reply(500, body)) {
        Err(Error::Generic(m)) => assert_eq!(m, "0 T: m"),
        other => panic!("expected a Generic failure, got {:?}", other),
    }
}

#[test]
fn error_code_must_be_an_integer_in_range() {
    // A fractional code does not match the descriptor shape.
    let body = "{\"error\":{\"code\":4.5,\"title\":\"T\",\"message\":\"m\"}}";
    assert!(matches!(client().interpret(&reply(500, body)), Err(Error::EncodingFailure(_))));
    // Neither does one beyond the 32-bit range.
    let body = "{\"error\":{\"code\":3000000000,\"title\":\"T\",\"message\":\"m\"}}";
    assert!(matches!(client().interpret(&reply(500, body)), Err(Error::EncodingFailure(_))));
    // Nor a string.
    let body = "{\"error\":{\"code\":\"401\",\"title\":\"T\",\"message\":\"m\"}}";
    assert!(matches!(client().interpret(&reply(500, body)), Err(Error::EncodingFailure(_))));
}

#[test]
fn repeated_body_interpretation_is_identical() {
    let c = client();
    let r1 = c.interpret(&reply(200, ACCESS_BODY)).unwrap();
    let r2 = c.interpret(&reply(200, ACCESS_BODY)).unwrap();
    assert_eq!(r1.access.token.id, r2.access.token.id);
    assert_eq!(r1.access.token.expires, r2.access.token.expires);
    assert_eq!(r1.access.user.roles.len(), r2.access.user.roles.len());
    let body = "{\"error\":{\"code\":500,\"title\":\"Oops\",\"message\":\"down\"}}";
    match (c.interpret(&reply(500, body)), c.interpret(&reply(500, body))) {
        (Err(Error::Generic(m1)), Err(Error::Generic(m2))) => {
            assert_eq!(m1, m2);
            assert_eq!(m1, "500 Oops: down");
        },
        other => panic!("expected two Generic failures, got {:?}", other),
    }
}
