use swift_keystone::authv1::{Client, ServerReply};
use swift_keystone::error::Error;
use swift_keystone::http::Method;

fn reply(
    status: u16,
    reason: &str,
    storage_url: Option<&[u8]>,
    auth_token: Option<&[u8]>,
) -> ServerReply {
    ServerReply {
        status,
        reason: reason.to_string(),
        storage_url: storage_url.map(|b| b.to_vec()),
        auth_token: auth_token.map(|b| b.to_vec()),
    }
}

#[test]
fn construction_succeeds_on_valid_url() {
    assert!(Client::new("http://127.0.0.1:5000/v1.0", "tester", "testing", None).is_ok());
    assert!(Client::new("https://identity.example.com/v1.0", "u", "p", Some(2500)).is_ok());
}

#[test]
fn construction_fails_on_invalid_url() {
    let r = Client::new("not a url", "tester", "testing", None);
    assert!(matches!(r, Err(Error::InvalidEndpoint(_))));
    let r = Client::new("", "tester", "testing", None);
    assert!(matches!(r, Err(Error::InvalidEndpoint(_))));
}

#[test]
fn request_carries_url_and_credential_headers() {
    let client = Client::new("http://identity.example.com", "alice", "secret", None).unwrap();
    let req = client.request();
    assert!(matches!(req.method, Method::Get));
    // The stored URL is the parsed URL's serialization, not the raw input.
    assert_eq!(req.url, "http://identity.example.com/");
    assert!(req.body.is_none());
    assert_eq!(req.headers.len(), 3);
    assert_eq!(req.headers[0].0, "User-Agent");
    assert_eq!(req.headers[1].0, "X-Auth-User");
    assert_eq!(req.headers[1].1, "alice");
    assert_eq!(req.headers[2].0, "X-Auth-Key");
    assert_eq!(req.headers[2].1, "secret");
}

#[test]
fn default_timeout_is_ten_seconds() {
    let client = Client::new("http://h/", "u", "p", None).unwrap();
    assert_eq!(client.timeout(), 10000);
    let client = Client::new("http://h/", "u", "p", Some(1234)).unwrap();
    assert_eq!(client.timeout(), 1234);
}

#[test]
fn success_with_both_headers() {
    let client = Client::new("http://h/v1.0", "u", "p", None).unwrap();
    let r = client
        .interpret(reply(200, "OK", Some(b"http://s/1"), Some(b"tok123")))
        .unwrap();
    assert_eq!(r.storage_url, "http://s/1");
    assert_eq!(r.auth_token, "tok123");
}

#[test]
fn missing_token_header_is_a_protocol_violation() {
    let client = Client::new("http://h/v1.0", "u", "p", None).unwrap();
    let r = client.interpret(reply(200, "OK", Some(b"http://s/1"), None));
    match r {
        Err(Error::Generic(m)) => assert_eq!(m, "Invalid response from server"),
        other => panic!("expected a Generic failure, got {:?}", other),
    }
}

#[test]
fn missing_storage_header_is_a_protocol_violation() {
    let client = Client::new("http://h/v1.0", "u", "p", None).unwrap();
    let r = client.interpret(reply(204, "No Content", None, Some(b"tok123")));
    match r {
        Err(Error::Generic(m)) => assert_eq!(m, "Invalid response from server"),
        other => panic!("expected a Generic failure, got {:?}", other),
    }
}

#[test]
fn non_success_status_reports_the_reason_phrase() {
    let client = Client::new("http://h/v1.0", "u", "p", None).unwrap();
    let r = client.interpret(reply(401, "Unauthorized", None, None));
    match r {
        Err(Error::Generic(m)) => {
            assert_eq!(m, "Authentication failed => Unauthorized");
            assert!(m.contains("Unauthorized"));
        },
        other => panic!("expected a Generic failure, got {:?}", other),
    }
}

#[test]
fn undecodable_header_is_an_encoding_failure() {
    let client = Client::new("http://h/v1.0", "u", "p", None).unwrap();
    let r = client.interpret(reply(200, "OK", Some(&[0xff, 0xfe]), Some(b"tok123")));
    assert!(matches!(r, Err(Error::EncodingFailure(_))));
}

#[test]
fn repeated_interpretation_is_identical() {
    let client = Client::new("http://h/v1.0", "u", "p", None).unwrap();
    let r1 = client
        .interpret(reply(200, "OK", Some(b"http://s/1"), Some(b"tok123")))
        .unwrap();
    let r2 = client
        .interpret(reply(200, "OK", Some(b"http://s/1"), Some(b"tok123")))
        .unwrap();
    assert_eq!(r1.storage_url, r2.storage_url);
    assert_eq!(r1.auth_token, r2.auth_token);
    let e1 = client.interpret(reply(503, "Service Unavailable", None, None));
    let e2 = client.interpret(reply(503, "Service Unavailable", None, None));
    match (e1, e2) {
        (Err(Error::Generic(m1)), Err(Error::Generic(m2))) => assert_eq!(m1, m2),
        other => panic!("expected two Generic failures, got {:?}", other),
    }
}

#[test]
fn error_message_carries_the_wrapped_text() {
    let e = Error::from("something went wrong".to_string());
    match &e {
        Error::Generic(m) => assert_eq!(m, "something went wrong"),
        other => panic!("expected Generic, got {:?}", other),
    }
    assert_eq!(e.message(), "something went wrong");
    assert_eq!(
        Error::TransportFailure("connection refused".to_string()).message(),
        "connection refused"
    );
}
