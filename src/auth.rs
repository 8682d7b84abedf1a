//! Authentication schemes and how each changes the headers or the URL.

use vstd::prelude::*;
use vstd::string::*;
use vstd::utf8::encode_utf8;

use reqwest::header::HeaderMap;

use crate::codec::{base64_encode, base64_encoded, is_base64_char};
use crate::encoding::{encoded_text, urlencoding_encode};
use crate::headers::{
    header_entries, header_key, is_value_char, set_header, valid_header_name, valid_header_value, with_header,
    MAX_HEADER_ENTRIES,
};
use crate::query::{push_query_pair, with_query_pair};
use crate::request::AuthConfig;
use crate::text::{joined, same_text};

verus! {

/// The value of a `Basic` authorization header for the credentials.
pub open spec fn basic_credentials(username: Seq<char>, password: Seq<char>) -> Seq<char> {
    "Basic "@ + base64_encoded(encode_utf8(username + ":"@ + password))
}

/// The placeholder `OAuth` authorization value: the consumer key and token,
/// percent-encoded and quoted, with no signature.
pub open spec fn oauth1_value(consumer_key: Seq<char>, token: Seq<char>) -> Seq<char> {
    "OAuth oauth_consumer_key=\""@ + encoded_text(consumer_key) + "\", oauth_token=\""@
        + encoded_text(token) + "\""@
}

/// How a scheme changes the outgoing header entries and the URL.
pub open spec fn auth_effect(
    config: AuthConfig,
    h: Map<Seq<char>, Seq<char>>,
    url: Seq<char>,
) -> (Map<Seq<char>, Seq<char>>, Seq<char>) {
    match config {
        AuthConfig::NoAuth => (h, url),
        AuthConfig::Bearer { token } => (with_header(h, "authorization"@, "Bearer "@ + token@), url),
        AuthConfig::Basic { username, password } => (
            with_header(h, "authorization"@, basic_credentials(username@, password@)),
            url,
        ),
        AuthConfig::ApiKey { key, value, location } => if location@ == "query"@ {
            (h, with_query_pair(url, key@, value@))
        } else {
            (with_header(h, key@, value@), url)
        },
        AuthConfig::OAuth2 { access_token, .. } => if access_token@.len() > 0 {
            (with_header(h, "authorization"@, "Bearer "@ + access_token@), url)
        } else {
            (h, url)
        },
        AuthConfig::OAuth1 { consumer_key, token, .. } => (
            with_header(h, "authorization"@, oauth1_value(consumer_key@, token@)),
            url,
        ),
        AuthConfig::Digest { username, password } => (
            with_header(h, "authorization"@, basic_credentials(username@, password@)),
            url,
        ),
        AuthConfig::AwsV4 { access_key, .. } => (
            with_header(h, "x-steq-aws-access-key"@, access_key@),
            url,
        ),
    }
}

/// With no authentication the headers and the URL stay exactly as they were.
pub proof fn no_auth_changes_nothing(h: Map<Seq<char>, Seq<char>>, url: Seq<char>)
    ensures
        auth_effect(AuthConfig::NoAuth, h, url) == (h, url),
{
}

/// The name `authorization` is accepted as it is.
proof fn authorization_name()
    ensures
        valid_header_name("authorization"@),
        header_key("authorization"@) == "authorization"@,
{
    reveal_strlit("authorization");
    assert(header_key("authorization"@) =~= "authorization"@);
}

fn basic_value(username: &str, password: &str) -> (r: String)
    ensures
        r@ == basic_credentials(username@, password@),
        valid_header_value(r@),
{
    let mut credentials = joined(username, ":");
    credentials.append(password);
    let encoded = base64_encode(credentials.as_str().as_bytes());
    let r = joined("Basic ", encoded.as_str());
    proof {
        reveal_strlit("Basic ");
        assert forall|i: int| 0 <= i < r@.len() implies #[trigger] is_value_char(r@[i]) by {
            if i >= 6 {
                assert(r@[i] == encoded@[i - 6]);
                assert(is_base64_char(encoded@[i - 6]));
            }
        }
    }
    r
}

fn oauth1_header(consumer_key: &str, token: &str) -> (r: String)
    ensures
        r@ == oauth1_value(consumer_key@, token@),
{
    let key = urlencoding_encode(consumer_key);
    let tok = urlencoding_encode(token);
    let mut out = joined("OAuth oauth_consumer_key=\"", key.as_str());
    out.append("\", oauth_token=\"");
    out.append(tok.as_str());
    out.append("\"");
    out
}

/// Applies the authentication scheme: sets its header (dropped silently when
/// the transport rejects the name or value) or, for an API key sent in the
/// query, appends the encoded pair to the URL. OAuth 1.0, Digest and AWS
/// Signature v4 are placeholders: an unsigned OAuth header, Basic
/// credentials, and the raw access key in a header of its own.
pub fn apply_auth(config: &AuthConfig, headers: &mut HeaderMap, url: &mut String)
    requires
        header_entries(*old(headers)).dom().finite(),
        header_entries(*old(headers)).dom().len() < MAX_HEADER_ENTRIES,
    ensures
        (header_entries(*final(headers)), final(url)@) == auth_effect(
            *config,
            header_entries(*old(headers)),
            old(url)@,
        ),
        *config matches AuthConfig::Basic { username, password } ==> header_entries(*final(headers))
            == header_entries(*old(headers)).insert("authorization"@, basic_credentials(username@, password@)),
        *config matches AuthConfig::Digest { username, password } ==> header_entries(*final(headers))
            == header_entries(*old(headers)).insert("authorization"@, basic_credentials(username@, password@)),
{
    proof {
        authorization_name();
    }
    match config {
        AuthConfig::NoAuth => {},
        AuthConfig::Bearer { token } => {
            let value = joined("Bearer ", token.as_str());
            set_header(headers, "authorization", value.as_str());
        },
        AuthConfig::Basic { username, password } => {
            let value = basic_value(username.as_str(), password.as_str());
            set_header(headers, "authorization", value.as_str());
        },
        AuthConfig::ApiKey { key, value, location } => {
            if same_text(location.as_str(), "query") {
                push_query_pair(url, key.as_str(), value.as_str());
            } else {
                set_header(headers, key.as_str(), value.as_str());
            }
        },
        AuthConfig::OAuth2 { access_token, .. } => {
            if !access_token.as_str().is_empty() {
                let value = joined("Bearer ", access_token.as_str());
                set_header(headers, "authorization", value.as_str());
            }
        },
        AuthConfig::OAuth1 { consumer_key, token, .. } => {
            let value = oauth1_header(consumer_key.as_str(), token.as_str());
            set_header(headers, "authorization", value.as_str());
        },
        AuthConfig::Digest { username, password } => {
            let value = basic_value(username.as_str(), password.as_str());
            set_header(headers, "authorization", value.as_str());
        },
        AuthConfig::AwsV4 { access_key, .. } => {
            set_header(headers, "x-steq-aws-access-key", access_key.as_str());
        },
    }
}

} // verus!
