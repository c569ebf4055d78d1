use barter_data::error::SocketError;
use barter_data::streams::builder::{LoginAnswer, Signer, LOGIN_URL};
use barter_data::web::{Method, RequestUrl};

fn url(text: &str) -> RequestUrl {
    RequestUrl::parse(text).unwrap()
}

#[test]
fn signer_holds_what_it_was_given() {
    let signer = Signer::new("access", "secret", "pass");
    assert_eq!(signer.ak, "access");
    assert_eq!(signer.sk, "secret");
    assert_eq!(signer.pwd, "pass");
    Signer::sign();
}

#[test]
fn signature_of_a_request_without_query() {
    let signer = Signer::new("access", "secret", "pass");
    let (key, signature) =
        signer.signature(Method::Get, "1700000000", &url("https://example.com/users/self/verify"), "");
    assert_eq!(key, "access");
    assert_eq!(signature, "lhmJXK08fk9SI1ZwFXKFRrPtzfbNOwC+D1xMJJ/1KZg=");
}

#[test]
fn signature_of_a_request_with_query() {
    let signer = Signer::new("access", "secret", "pass");
    let (_, signature) = signer.signature(
        Method::Get,
        "2020-12-08T09:08:57.715Z",
        &url("https://www.okx.com/api/v5/account/balance?ccy=BTC"),
        "",
    );
    assert_eq!(signature, "wpDvCwYCprcMQsQkxWJiWy+YADoQE4ep+OEKKLimMoY=");
}

#[test]
fn signature_of_a_request_with_body() {
    let signer = Signer::new("access", "secret", "pass");
    let (_, signature) = signer.signature(
        Method::Post,
        "1700000000",
        &url("https://www.okx.com/api/v5/trade/order"),
        "{\"instId\":\"BTC-USDT\"}",
    );
    assert_eq!(signature, "ZiDxdUbBjpGh0+Zo43yeXvwLwufF94rCitcW7WKR+xc=");
}

#[test]
fn signature_is_the_same_on_every_call() {
    let signer = Signer::new("access", "secret", "pass");
    let address = url("https://example.com/users/self/verify");
    let first = signer.signature(Method::Get, "1700000000", &address, "").1;
    let second = signer.signature(Method::Get, "1700000000", &address, "").1;
    let third = Signer::new("another", "secret", "word")
        .signature(Method::Get, "1700000000", &address, "")
        .1;
    assert_eq!(first, second);
    assert_eq!(first, third);
}

#[test]
fn signature_depends_on_secret_and_message() {
    let address = url("https://example.com/users/self/verify");
    let signed = Signer::new("access", "secret", "pass")
        .signature(Method::Get, "1700000000", &address, "")
        .1;
    let other_secret = Signer::new("access", "other", "pass")
        .signature(Method::Get, "1700000000", &address, "")
        .1;
    let other_time = Signer::new("access", "secret", "pass")
        .signature(Method::Get, "1700000001", &address, "")
        .1;
    assert_eq!(other_secret, "dXp49OlR2j5CTpZPpSW7Ul/ACFH8s0FDZBzGekaZqzA=");
    assert_ne!(signed, other_secret);
    assert_ne!(signed, other_time);
}

#[test]
fn signature_does_not_depend_on_the_host() {
    let signer = Signer::new("access", "secret", "pass");
    let here = signer
        .signature(Method::Get, "1700000000", &url("https://example.com/users/self/verify"), "")
        .1;
    let there = signer
        .signature(Method::Get, "1700000000", &url("wss://wsaws.okx.com:8443/users/self/verify"), "")
        .1;
    assert_eq!(here, there);
}

#[test]
fn checked_signature_signs_what_can_be_signed() {
    let signer = Signer::new("access", "secret", "pass");
    let address = url("https://example.com/users/self/verify");
    let signed = signer.checked_signature(Method::Get, "1700000000", &address, "");
    assert_eq!(
        signed,
        Some(("access", "lhmJXK08fk9SI1ZwFXKFRrPtzfbNOwC+D1xMJJ/1KZg=".to_string()))
    );
}

#[test]
fn login_request_is_a_signed_frame() {
    let signer = Signer::new("access", "secret", "pass\"word");
    let frame = signer.login_request(1700000000).unwrap();
    assert_eq!(
        frame,
        "{\"args\":[{\"apiKey\":\"access\",\"passphrase\":\"pass\\\"word\",\"sign\":\"lhmJXK08fk9SI1ZwFXKFRrPtzfbNOwC+D1xMJJ/1KZg=\",\"timestamp\":\"1700000000\"}],\"op\":\"login\"}"
    );
    let value: serde_json::Value = serde_json::from_str(&frame).unwrap();
    assert_eq!(value["op"], "login");
    assert_eq!(value["args"].as_array().unwrap().len(), 1);
    assert_eq!(value["args"][0]["apiKey"], "access");
    assert_eq!(value["args"][0]["passphrase"], "pass\"word");
    assert_eq!(value["args"][0]["timestamp"], "1700000000");
    let address = RequestUrl::parse(LOGIN_URL).unwrap();
    let signature = signer.signature(Method::Get, "1700000000", &address, "").1;
    assert_eq!(value["args"][0]["sign"], signature.as_str());
}

#[test]
fn login_response_needs_an_acknowledgement() {
    assert!(matches!(Signer::login_response(LoginAnswer::Acknowledged), Ok(666)));
    match Signer::login_response(LoginAnswer::Nothing) {
        Err(SocketError::Subscribe(reason)) => {
            assert_eq!(reason, "WebSocket stream okx login failed")
        }
        other => panic!("unexpected outcome: {other:?}"),
    }
    let refusal = SocketError::Subscribe("Login failed.".to_string());
    match Signer::login_response(LoginAnswer::Refused(refusal)) {
        Err(SocketError::Subscribe(reason)) => assert_eq!(reason, "Login failed."),
        other => panic!("unexpected outcome: {other:?}"),
    }
    let broken = SocketError::WebSocket("connection reset".to_string());
    match Signer::login_response(LoginAnswer::Broken(broken)) {
        Err(SocketError::WebSocket(reason)) => assert_eq!(reason, "connection reset"),
        other => panic!("unexpected outcome: {other:?}"),
    }
}

#[test]
fn signature_with_an_extension_method() {
    let signer = Signer::new("ak", "Jefe", "");
    let address = url("x://h");
    assert_eq!(address.path_str(), "");
    assert_eq!(address.query_str(), None);
    let (key, signature) = signer.signature(
        Method::from_name("nothing"),
        "what do ya want for ",
        &address,
        "?",
    );
    assert_eq!(key, "ak");
    assert_eq!(signature, "W9zBRr9gdU5qBCQmCJV1x1oAPwidJzmDnexYuWTsOEM=");
    let again = signer
        .signature(Method::Extension("nothing".to_string()), "what do ya want for ", &address, "?")
        .1;
    assert_eq!(again, signature);
}

#[test]
fn signatures_are_forty_four_characters() {
    let signer = Signer::new("access", "secret", "pass");
    let address = url("https://example.com/users/self/verify");
    for body in ["", "a", "ab", "abc", "a longer body than the others"] {
        let signature = signer.signature(Method::Post, "1700000000", &address, body).1;
        assert_eq!(signature.chars().count(), 44);
    }
}

#[test]
fn methods_are_told_from_their_names() {
    assert_eq!(Method::from_name("GET"), Method::Get);
    assert_eq!(Method::from_name("POST"), Method::Post);
    assert_eq!(Method::from_name("PUT"), Method::Put);
    assert_eq!(Method::from_name("DELETE"), Method::Delete);
    assert_eq!(Method::from_name("HEAD"), Method::Head);
    assert_eq!(Method::from_name("OPTIONS"), Method::Options);
    assert_eq!(Method::from_name("CONNECT"), Method::Connect);
    assert_eq!(Method::from_name("PATCH"), Method::Patch);
    assert_eq!(Method::from_name("TRACE"), Method::Trace);
    assert_eq!(Method::from_name("PURGE"), Method::Extension("PURGE".to_string()));
    assert_eq!(Method::from_name("get"), Method::Extension("get".to_string()));
    assert_eq!(Method::from_name("PURGE").as_str(), "PURGE");
    assert_eq!(Method::Extension("nothing".to_string()).as_str(), "nothing");
}

#[test]
fn addresses_parse_into_path_and_query() {
    let plain = url("https://example.com/users/self/verify");
    assert_eq!(plain.as_str(), "https://example.com/users/self/verify");
    assert_eq!(plain.path_str(), "/users/self/verify");
    assert_eq!(plain.query_str(), None);

    let with_query = url("https://example.com/products?page=2&size=10#top");
    assert_eq!(with_query.path_str(), "/products");
    assert_eq!(with_query.query_str(), Some("page=2&size=10"));

    let bare = url("https://example.com");
    assert_eq!(bare.path_str(), "/");

    let spaced = url("https://example.com/a b?c d");
    assert_eq!(spaced.path_str(), "/a%20b");
    assert_eq!(spaced.query_str(), Some("c%20d"));
}

#[test]
fn addresses_that_do_not_parse_are_refused() {
    assert!(RequestUrl::parse("not an address").is_err());
    assert!(RequestUrl::parse("").is_err());
    assert!(RequestUrl::parse("/relative/path").is_err());
    assert!(RequestUrl::parse("https://exa mple.com/").is_err());
}

#[test]
fn methods_have_their_names() {
    assert_eq!(Method::Get.as_str(), "GET");
    assert_eq!(Method::Post.as_str(), "POST");
    assert_eq!(Method::Put.as_str(), "PUT");
    assert_eq!(Method::Delete.as_str(), "DELETE");
    assert_eq!(Method::Head.as_str(), "HEAD");
    assert_eq!(Method::Options.as_str(), "OPTIONS");
    assert_eq!(Method::Connect.as_str(), "CONNECT");
    assert_eq!(Method::Patch.as_str(), "PATCH");
    assert_eq!(Method::Trace.as_str(), "TRACE");
}
