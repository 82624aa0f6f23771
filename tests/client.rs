use acap_vapix::{AuthKind, Client, Scheme, SendMode, UpgradeError};

fn client() -> Client {
    Client::new(url::Url::parse("http://example/").unwrap(), reqwest::Client::new())
}

fn authorization(b: acap_vapix::RequestBuilder) -> (bool, Option<String>) {
    let (mode, builder) = b.into_send();
    let digest = matches!(mode, SendMode::Digest { .. });
    let req = builder.build().unwrap();
    let header = req
        .headers()
        .get("authorization")
        .map(|v| v.to_str().unwrap().to_string());
    (digest, header)
}

#[test]
fn candidate_address_joins_scheme_and_host() {
    assert_eq!(Client::candidate_address(Scheme::Https, "example"), "https://example");
    assert_eq!(Client::candidate_address(Scheme::Http, "10.0.0.1"), "http://10.0.0.1");
}

#[test]
fn plaintext_candidate_has_http_scheme() {
    let c = Client::for_scheme(Scheme::Http, "example", reqwest::Client::new()).unwrap();
    assert_eq!(c.base().scheme(), "http");
    assert_eq!(c.base().as_str(), "http://example/");
}

#[test]
fn encrypted_candidate_has_https_scheme() {
    let c = Client::for_scheme(Scheme::Https, "example", reqwest::Client::new()).unwrap();
    assert_eq!(c.base().scheme(), "https");
}

#[test]
fn bad_host_is_refused() {
    assert!(Client::for_scheme(Scheme::Http, "exa mple", reqwest::Client::new()).is_err());
}

#[test]
fn bearer_attaches_header_and_sends_directly() {
    let c = client().bearer_auth("tok");
    for path in ["a", "b/c", "/axis-cgi/x.cgi"] {
        let (digest, header) = authorization(c.get(path).unwrap());
        assert!(!digest);
        assert_eq!(header.as_deref(), Some("Bearer tok"));
    }
}

#[test]
fn basic_attaches_header() {
    let c = client().basic_auth("user", "pass");
    let (digest, header) = authorization(c.post("x").unwrap());
    assert!(!digest);
    assert_eq!(header.as_deref(), Some("Basic dXNlcjpwYXNz"));
}

#[test]
fn digest_attaches_nothing_and_uses_challenge() {
    let c = client().digest_auth("user", "pass");
    let (mode, builder) = c.put("x").unwrap().into_send();
    match mode {
        SendMode::Digest { username, password } => {
            assert_eq!(username, "user");
            assert_eq!(password.revealed(), "pass");
        }
        SendMode::Direct => panic!("digest must use the challenge exchange"),
    }
    assert!(builder.build().unwrap().headers().get("authorization").is_none());
}

#[test]
fn anonymous_attaches_nothing() {
    let (digest, header) = authorization(client().get("x").unwrap());
    assert!(!digest);
    assert_eq!(header, None);
}

#[test]
fn request_resolves_path_against_base() {
    let c = Client::new(url::Url::parse("http://example/base/").unwrap(), reqwest::Client::new());
    let (_, builder) = c.get("x.cgi?a=1").unwrap().into_send();
    assert_eq!(builder.build().unwrap().url().as_str(), "http://example/base/x.cgi?a=1");
}

#[test]
fn unresolvable_path_is_an_error() {
    assert!(client().get("http://[::1").is_err());
}

#[test]
fn upgraded_digest_fails_unimplemented() {
    let up = client().digest_auth("u", "p").get("ws").unwrap().upgrade();
    let err = up.into_send().err().unwrap();
    assert_eq!(err, UpgradeError::DigestUnsupported);
    assert_eq!(err.message(), "unimplemented");
}

#[test]
fn upgraded_bearer_can_be_sent() {
    let up = client().bearer_auth("t").get("ws").unwrap().upgrade();
    assert!(up.into_send().is_ok());
}

#[test]
fn builders_leave_first_client_unchanged() {
    let first = client().bearer_auth("keep");
    let _basic = first.clone().basic_auth("u", "p");
    let _digest = first.clone().digest_auth("u", "p");
    let _anon = first.clone().anonymous_auth();
    let (_, header) = authorization(first.get("x").unwrap());
    assert_eq!(header.as_deref(), Some("Bearer keep"));
    assert_eq!(_basic.base().as_str(), first.base().as_str());
}

#[test]
fn with_auth_kind_matches_builders() {
    let (digest, header) = authorization(
        client().with_auth_kind(AuthKind::Basic, "user", "pass").get("x").unwrap(),
    );
    assert!(!digest);
    assert_eq!(header.as_deref(), Some("Basic dXNlcjpwYXNz"));
    let (digest, _) = authorization(
        client().with_auth_kind(AuthKind::Digest, "user", "pass").get("x").unwrap(),
    );
    assert!(digest);
    let (digest, header) = authorization(
        client().bearer_auth("t").with_auth_kind(AuthKind::Anonymous, "u", "p").get("x").unwrap(),
    );
    assert!(!digest);
    assert_eq!(header, None);
}

#[test]
fn replace_with_keeps_method() {
    let b = client()
        .bearer_auth("tok")
        .get("x")
        .unwrap()
        .replace_with(|b| b.header("x-extra", "1"));
    let (_, builder) = b.into_send();
    let req = builder.build().unwrap();
    assert_eq!(req.headers().get("x-extra").unwrap(), "1");
    assert_eq!(req.headers().get("authorization").unwrap(), "Bearer tok");
}

#[test]
fn request_carries_method_and_url() {
    let c = client().bearer_auth("abc");
    let (_, builder) = c.request(reqwest::Method::GET, "axis-cgi/x.cgi").unwrap().into_send();
    let req = builder.build().unwrap();
    assert_eq!(req.method(), reqwest::Method::GET);
    assert_eq!(req.url().as_str(), "http://example/axis-cgi/x.cgi");
    assert_eq!(req.headers().get("authorization").unwrap(), "Bearer abc");
}

#[test]
fn post_and_put_use_their_methods() {
    let (_, b) = client().post("x").unwrap().into_send();
    assert_eq!(b.build().unwrap().method(), reqwest::Method::POST);
    let (_, b) = client().put("x").unwrap().into_send();
    assert_eq!(b.build().unwrap().method(), reqwest::Method::PUT);
}

#[test]
fn clone_keeps_configuration() {
    let c = client().digest_auth("u", "p");
    let copy = c.clone();
    let _anon = c.anonymous_auth();
    assert_eq!(copy.base().as_str(), "http://example/");
    let (mode, _) = copy.get("x").unwrap().into_send();
    assert!(matches!(mode, SendMode::Digest { .. }));
}
