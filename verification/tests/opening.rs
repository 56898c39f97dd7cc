use jmap_ws::client::{Client, WebSocketCapabilities};
use jmap_ws::error::Error;
use jmap_ws::handshake::{accepts_any_cert, is_client_url, jmap_request, with_jmap_headers};
use jmap_ws::text::{decimal_string, is_header_text, join, starts_with};
use jmap_ws::timeout::Timeout;
use jmap_ws::tls::{DummyVerifier, SignatureScheme};
use tokio_tungstenite::tungstenite::http::Request;

fn client_for(url: Option<&str>, authorization: &str, accept_invalid_certs: bool) -> Client {
    Client::new(
        3,
        url.map(|url| WebSocketCapabilities { url: url.to_string() }),
        authorization.to_string(),
        accept_invalid_certs,
        Timeout::new(10, 0),
    )
}

fn header<'a>(request: &'a Request<()>, name: &str) -> Vec<&'a str> {
    request.headers().get_all(name).iter().map(|value| value.to_str().unwrap()).collect()
}

#[test]
fn opening_needs_an_endpoint() {
    match client_for(None, "Basic abc", false).open_ws().unwrap_err() {
        Error::Internal(message) => {
            assert_eq!(message, "JMAP server does not advertise any websocket capabilities.")
        }
        err => panic!("unexpected error: {err:?}"),
    }
}

#[test]
fn opening_makes_a_jmap_handshake() {
    let url = "wss://user@jmap.example.org:8080/ws?x=1";
    let handshake = client_for(Some(url), "Basic abc", false).open_ws().unwrap();
    let request = handshake.request;
    assert!(!handshake.accept_any_cert);
    assert_eq!(request.uri().to_string(), url);
    assert_eq!(header(&request, "host"), vec!["jmap.example.org:8080"]);
    assert_eq!(header(&request, "connection"), vec!["Upgrade"]);
    assert_eq!(header(&request, "upgrade"), vec!["websocket"]);
    assert_eq!(header(&request, "sec-websocket-version"), vec!["13"]);
    assert_eq!(header(&request, "sec-websocket-key")[0].len(), 24);
    assert_eq!(header(&request, "authorization"), vec!["Basic abc"]);
    assert_eq!(header(&request, "sec-websocket-protocol"), vec!["jmap"]);
    assert_eq!(request.headers().len(), 7);
}

#[test]
fn opening_refuses_bad_urls() {
    for url in ["not a url", "/path", ""] {
        assert!(!is_client_url(url));
        match client_for(Some(url), "Basic abc", true).open_ws() {
            Err(Error::WebSocket(reason)) => assert!(!reason.is_empty()),
            other => panic!("unexpected opening: {other:?}"),
        }
    }
    assert!(is_client_url("ws://jmap.example.org"));
    assert!(jmap_request("", "a").is_err());
}

#[test]
fn opening_checks_the_authorization_after_the_url() {
    assert!(client_for(Some("ws://jmap.example.org"), "a\nb", false).try_open_ws().is_none());
    assert!(client_for(Some(""), "a\nb", false).try_open_ws().unwrap().is_err());
    assert!(client_for(None, "a\nb", false).try_open_ws().unwrap().is_err());
    assert!(client_for(Some("ws://jmap.example.org"), "ab", false).try_open_ws().unwrap().is_ok());
}

#[test]
fn invalid_certificates_are_accepted_only_over_tls() {
    assert!(accepts_any_cert(true, "wss://jmap.example.org"));
    assert!(!accepts_any_cert(true, "ws://jmap.example.org"));
    assert!(!accepts_any_cert(false, "wss://jmap.example.org"));
    let client = client_for(Some("wss://jmap.example.org"), "a", true);
    assert!(client.open_ws().unwrap().accept_any_cert);
    let client = client_for(Some("ws://jmap.example.org"), "a", true);
    assert!(!client.open_ws().unwrap().accept_any_cert);
}

#[test]
fn jmap_headers_replace_what_was_there() {
    let mut request = Request::new(());
    request.headers_mut().insert("authorization", "old".parse().unwrap());
    request.headers_mut().append("authorization", "older".parse().unwrap());
    request.headers_mut().insert("x-other", "kept".parse().unwrap());
    let request = with_jmap_headers(request, "new");
    assert_eq!(header(&request, "authorization"), vec!["new"]);
    assert_eq!(header(&request, "sec-websocket-protocol"), vec!["jmap"]);
    assert_eq!(header(&request, "x-other"), vec!["kept"]);
}

#[test]
fn times_are_put_in_words() {
    assert_eq!(Timeout::new(10, 0).describe(), "10s");
    assert_eq!(Timeout::new(0, 1_500_000).describe(), "1.5ms");
}

#[test]
fn texts_are_built_and_tested() {
    assert_eq!(decimal_string(0), "0");
    assert_eq!(decimal_string(1009), "1009");
    assert_eq!(decimal_string(u64::MAX), u64::MAX.to_string());
    assert_eq!(join("a", "b", "c"), "abc");
    assert!(starts_with("wss://x", "wss"));
    assert!(!starts_with("ws", "wss"));
    assert!(starts_with("", ""));
    assert!(is_header_text("a\tb \u{e9}"));
    assert!(!is_header_text("a\u{7f}"));
    assert!(!is_header_text("a\r"));
}

#[test]
fn all_schemes_are_offered() {
    let schemes = DummyVerifier {}.supported_verify_schemes();
    assert_eq!(schemes.len(), 13);
    assert_eq!(schemes[0], SignatureScheme::RSA_PKCS1_SHA1);
    assert_eq!(schemes[3], SignatureScheme::ECDSA_NISTP256_SHA256);
    assert_eq!(schemes[12], SignatureScheme::ED448);
}
