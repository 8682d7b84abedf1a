use reqwest::header::HeaderMap;
use steq::auth::apply_auth;
use steq::headers::{build_header_map, set_header};
use steq::request::{AuthConfig, KeyValue};

fn header(m: &HeaderMap, name: &str) -> Option<String> {
    m.get(name).map(|v| v.to_str().unwrap().to_string())
}

fn one_header() -> HeaderMap {
    let mut m = HeaderMap::new();
    assert!(set_header(&mut m, "Accept", "application/json"));
    m
}

#[test]
fn no_auth_changes_nothing_concrete() {
    let mut m = one_header();
    let mut url = "https://a.com/x?y=1".to_string();
    apply_auth(&AuthConfig::NoAuth, &mut m, &mut url);
    assert_eq!(url, "https://a.com/x?y=1");
    assert_eq!(m.len(), 1);
    assert_eq!(header(&m, "accept").as_deref(), Some("application/json"));
}

#[test]
fn bearer_sets_exact_authorization() {
    let mut m = HeaderMap::new();
    let mut url = "https://a.com/x".to_string();
    apply_auth(&AuthConfig::Bearer { token: "abc".to_string() }, &mut m, &mut url);
    assert_eq!(m.len(), 1);
    assert_eq!(header(&m, "authorization").as_deref(), Some("Bearer abc"));
    assert_eq!(url, "https://a.com/x");
}

#[test]
fn bearer_replaces_user_authorization_header() {
    let headers = vec![KeyValue { key: "Authorization".into(), value: "Token old".into(), enabled: true }];
    let mut m = build_header_map(&headers);
    let mut url = "u".to_string();
    apply_auth(&AuthConfig::Bearer { token: "new".into() }, &mut m, &mut url);
    assert_eq!(m.get_all("authorization").iter().count(), 1);
    assert_eq!(header(&m, "authorization").as_deref(), Some("Bearer new"));
}

#[test]
fn bearer_with_invalid_value_is_dropped() {
    let mut m = HeaderMap::new();
    let mut url = "u".to_string();
    apply_auth(&AuthConfig::Bearer { token: "a\nb".into() }, &mut m, &mut url);
    assert!(m.is_empty());
}

#[test]
fn basic_encodes_credentials() {
    let mut m = HeaderMap::new();
    let mut url = "u".to_string();
    let config = AuthConfig::Basic { username: "Aladdin".into(), password: "open sesame".into() };
    apply_auth(&config, &mut m, &mut url);
    assert_eq!(header(&m, "authorization").as_deref(), Some("Basic QWxhZGRpbjpvcGVuIHNlc2FtZQ=="));
}

#[test]
fn digest_falls_back_to_basic() {
    let mut m = HeaderMap::new();
    let mut url = "u".to_string();
    apply_auth(&AuthConfig::Digest { username: "u".into(), password: "p".into() }, &mut m, &mut url);
    assert_eq!(header(&m, "authorization").as_deref(), Some("Basic dTpw"));
}

#[test]
fn api_key_in_query() {
    let mut m = HeaderMap::new();
    let mut url = "https://a.com/x".to_string();
    let config = AuthConfig::ApiKey { key: "k".into(), value: "v".into(), location: "query".into() };
    apply_auth(&config, &mut m, &mut url);
    assert_eq!(url, "https://a.com/x?k=v");
    assert!(m.is_empty());
    let mut url2 = "https://a.com/x?a=1".to_string();
    let config2 = AuthConfig::ApiKey { key: "api key".into(), value: "v&1".into(), location: "query".into() };
    apply_auth(&config2, &mut m, &mut url2);
    assert_eq!(url2, "https://a.com/x?a=1&api%20key=v%261");
}

#[test]
fn api_key_in_header() {
    let mut m = HeaderMap::new();
    let mut url = "u".to_string();
    let config = AuthConfig::ApiKey { key: "X-Api-Key".into(), value: "secret".into(), location: "header".into() };
    apply_auth(&config, &mut m, &mut url);
    assert_eq!(header(&m, "x-api-key").as_deref(), Some("secret"));
    assert_eq!(url, "u");
    let bad = AuthConfig::ApiKey { key: "bad key".into(), value: "v".into(), location: "".into() };
    apply_auth(&bad, &mut m, &mut url);
    assert_eq!(m.len(), 1);
}

fn oauth2(token: &str) -> AuthConfig {
    AuthConfig::OAuth2 {
        grant_type: "client_credentials".into(),
        access_token: token.into(),
        token_url: String::new(),
        auth_url: String::new(),
        client_id: String::new(),
        client_secret: String::new(),
        scope: String::new(),
        username: String::new(),
        password: String::new(),
        redirect_uri: String::new(),
    }
}

#[test]
fn oauth2_uses_access_token_when_present() {
    let mut m = HeaderMap::new();
    let mut url = "u".to_string();
    apply_auth(&oauth2(""), &mut m, &mut url);
    assert!(m.is_empty());
    apply_auth(&oauth2("tok"), &mut m, &mut url);
    assert_eq!(header(&m, "authorization").as_deref(), Some("Bearer tok"));
}

#[test]
fn oauth1_placeholder_header() {
    let mut m = HeaderMap::new();
    let mut url = "u".to_string();
    let config = AuthConfig::OAuth1 {
        consumer_key: "ck 1".into(),
        consumer_secret: "cs".into(),
        token: "t/2".into(),
        token_secret: "ts".into(),
        signature_method: "HMAC-SHA1".into(),
    };
    apply_auth(&config, &mut m, &mut url);
    assert_eq!(
        header(&m, "authorization").as_deref(),
        Some("OAuth oauth_consumer_key=\"ck%201\", oauth_token=\"t%2F2\"")
    );
}

#[test]
fn aws_v4_placeholder_header() {
    let mut m = HeaderMap::new();
    let mut url = "u".to_string();
    let config = AuthConfig::AwsV4 {
        access_key: "AKIDEXAMPLE".into(),
        secret_key: "s".into(),
        region: "us-east-1".into(),
        service: "s3".into(),
    };
    apply_auth(&config, &mut m, &mut url);
    assert_eq!(header(&m, "x-steq-aws-access-key").as_deref(), Some("AKIDEXAMPLE"));
    assert!(header(&m, "authorization").is_none());
}

#[test]
fn header_map_drops_disabled_and_invalid() {
    let headers = vec![
        KeyValue { key: "X-One".into(), value: "1".into(), enabled: true },
        KeyValue { key: "X-Two".into(), value: "2".into(), enabled: false },
        KeyValue { key: "Bad Name".into(), value: "3".into(), enabled: true },
        KeyValue { key: "X-Four".into(), value: "bad\r\nvalue".into(), enabled: true },
        KeyValue { key: "x-one".into(), value: "again".into(), enabled: true },
    ];
    let m = build_header_map(&headers);
    assert_eq!(m.len(), 1);
    assert_eq!(header(&m, "x-one").as_deref(), Some("again"));
}

#[test]
fn set_header_reports_acceptance() {
    let mut m = HeaderMap::new();
    assert!(!set_header(&mut m, "", "v"));
    assert!(!set_header(&mut m, "a:b", "v"));
    assert!(!set_header(&mut m, "naïve", "v"));
    assert!(!set_header(&mut m, "k", "\u{7f}"));
    assert!(set_header(&mut m, "k", "tab\there é"));
    assert_eq!(m.len(), 1);
}
