//! The request model: methods, body types, authentication settings and the
//! stored and executable forms of a request.

use vstd::prelude::*;

use crate::text::{joined, same_text, upper_of, uppercase};

verus! {

/// The request methods an API request can use.
#[allow(non_camel_case_types, clippy::upper_case_acronyms)]
#[derive(Debug, Clone, Copy, PartialEq, Eq)]
pub enum HttpMethod {
    GET,
    POST,
    PUT,
    PATCH,
    DELETE,
    HEAD,
    OPTIONS,
}

impl HttpMethod {
    /// The method's token as it stands on the wire.
    pub open spec fn name(self) -> Seq<char> {
        match self {
            HttpMethod::GET => "GET"@,
            HttpMethod::POST => "POST"@,
            HttpMethod::PUT => "PUT"@,
            HttpMethod::PATCH => "PATCH"@,
            HttpMethod::DELETE => "DELETE"@,
            HttpMethod::HEAD => "HEAD"@,
            HttpMethod::OPTIONS => "OPTIONS"@,
        }
    }

    /// The method whose token is exactly `s`, if any.
    pub open spec fn named(s: Seq<char>) -> Option<HttpMethod> {
        if s == "GET"@ {
            Some(HttpMethod::GET)
        } else if s == "POST"@ {
            Some(HttpMethod::POST)
        } else if s == "PUT"@ {
            Some(HttpMethod::PUT)
        } else if s == "PATCH"@ {
            Some(HttpMethod::PATCH)
        } else if s == "DELETE"@ {
            Some(HttpMethod::DELETE)
        } else if s == "HEAD"@ {
            Some(HttpMethod::HEAD)
        } else if s == "OPTIONS"@ {
            Some(HttpMethod::OPTIONS)
        } else {
            None
        }
    }

    pub fn as_str(&self) -> (r: &str)
        ensures
            r@ == self.name(),
    {
        match self {
            HttpMethod::GET => "GET",
            HttpMethod::POST => "POST",
            HttpMethod::PUT => "PUT",
            HttpMethod::PATCH => "PATCH",
            HttpMethod::DELETE => "DELETE",
            HttpMethod::HEAD => "HEAD",
            HttpMethod::OPTIONS => "OPTIONS",
        }
    }

    /// The method whose token is exactly `s` (already in upper case).
    pub fn from_canonical(s: &str) -> (r: Option<HttpMethod>)
        ensures
            r == HttpMethod::named(s@),
    {
        if same_text(s, "GET") {
            Some(HttpMethod::GET)
        } else if same_text(s, "POST") {
            Some(HttpMethod::POST)
        } else if same_text(s, "PUT") {
            Some(HttpMethod::PUT)
        } else if same_text(s, "PATCH") {
            Some(HttpMethod::PATCH)
        } else if same_text(s, "DELETE") {
            Some(HttpMethod::DELETE)
        } else if same_text(s, "HEAD") {
            Some(HttpMethod::HEAD)
        } else if same_text(s, "OPTIONS") {
            Some(HttpMethod::OPTIONS)
        } else {
            None
        }
    }

    /// Parses a method name in any letter case; an unknown name is an error
    /// that quotes the upper-cased input.
    pub fn from_str(s: &str) -> (r: Result<HttpMethod, String>)
        ensures
            r is Ok <==> HttpMethod::named(upper_of(s@)) is Some,
            r matches Ok(m) ==> HttpMethod::named(upper_of(s@)) == Some(m),
            r matches Err(e) ==> e@ == "Unknown HTTP method: "@ + upper_of(s@),
    {
        let upper = uppercase(s);
        match HttpMethod::from_canonical(upper.as_str()) {
            Some(m) => Ok(m),
            None => Err(joined("Unknown HTTP method: ", upper.as_str())),
        }
    }
}

/// A method's token reads back as the same method.
pub proof fn method_name_round_trip(m: HttpMethod)
    ensures
        HttpMethod::named(m.name()) == Some(m),
{
    reveal_strlit("GET");
    reveal_strlit("POST");
    reveal_strlit("PUT");
    reveal_strlit("PATCH");
    reveal_strlit("DELETE");
    reveal_strlit("HEAD");
    reveal_strlit("OPTIONS");
    assert("GET"@.len() == 3 && "GET"@[0] == 'G');
    assert("POST"@.len() == 4 && "POST"@[0] == 'P');
    assert("PUT"@.len() == 3 && "PUT"@[0] == 'P');
    assert("PATCH"@.len() == 5 && "PATCH"@[0] == 'P');
    assert("DELETE"@.len() == 6 && "DELETE"@[0] == 'D');
    assert("HEAD"@.len() == 4 && "HEAD"@[0] == 'H');
    assert("OPTIONS"@.len() == 7 && "OPTIONS"@[0] == 'O');
}

/// One header or query parameter; disabled entries are kept but not sent.
#[derive(Debug, Clone)]
pub struct KeyValue {
    pub key: String,
    pub value: String,
    pub enabled: bool,
}

impl KeyValue {
    /// A copy equal to this pair.
    pub fn duplicate(&self) -> (r: KeyValue)
        ensures
            r == *self,
    {
        KeyValue { key: self.key.clone(), value: self.value.clone(), enabled: self.enabled }
    }
}

/// A copy equal to the list of pairs.
pub fn duplicate_pairs(v: &Vec<KeyValue>) -> (r: Vec<KeyValue>)
    ensures
        r@ == v@,
{
    let mut out: Vec<KeyValue> = Vec::new();
    let mut i: usize = 0;
    while i < v.len()
        invariant
            i <= v@.len(),
            out@ == v@.subrange(0, i as int),
        decreases v@.len() - i,
    {
        out.push(v[i].duplicate());
        i = i + 1;
    }
    out
}

/// A copy equal to the optional text.
pub fn duplicate_text(o: &Option<String>) -> (r: Option<String>)
    ensures
        r == *o,
{
    match o {
        Some(t) => Some(t.clone()),
        None => None,
    }
}

/// How a request body is declared, which decides its encoding.
#[derive(Debug, Clone, Copy, PartialEq, Eq)]
pub enum BodyType {
    NoBody,
    Json,
    Text,
    FormUrlEncoded,
    Multipart,
    GraphQL,
}

impl BodyType {
    /// The stored tag of the body type.
    pub open spec fn tag(self) -> Seq<char> {
        match self {
            BodyType::NoBody => "none"@,
            BodyType::Json => "json"@,
            BodyType::Text => "text"@,
            BodyType::FormUrlEncoded => "form_url_encoded"@,
            BodyType::Multipart => "multipart"@,
            BodyType::GraphQL => "graphql"@,
        }
    }

    /// The body type a stored tag stands for; unknown tags mean no body.
    pub open spec fn tagged(s: Seq<char>) -> BodyType {
        if s == "json"@ {
            BodyType::Json
        } else if s == "text"@ {
            BodyType::Text
        } else if s == "form_url_encoded"@ {
            BodyType::FormUrlEncoded
        } else if s == "multipart"@ {
            BodyType::Multipart
        } else if s == "graphql"@ {
            BodyType::GraphQL
        } else {
            BodyType::NoBody
        }
    }

    pub fn as_str(&self) -> (r: &str)
        ensures
            r@ == self.tag(),
    {
        match self {
            BodyType::NoBody => "none",
            BodyType::Json => "json",
            BodyType::Text => "text",
            BodyType::FormUrlEncoded => "form_url_encoded",
            BodyType::Multipart => "multipart",
            BodyType::GraphQL => "graphql",
        }
    }

    pub fn from_str(s: &str) -> (r: BodyType)
        ensures
            r == BodyType::tagged(s@),
    {
        if same_text(s, "json") {
            BodyType::Json
        } else if same_text(s, "text") {
            BodyType::Text
        } else if same_text(s, "form_url_encoded") {
            BodyType::FormUrlEncoded
        } else if same_text(s, "multipart") {
            BodyType::Multipart
        } else if same_text(s, "graphql") {
            BodyType::GraphQL
        } else {
            BodyType::NoBody
        }
    }
}

/// A body type's stored tag reads back as the same body type.
pub proof fn body_tag_round_trip(t: BodyType)
    ensures
        BodyType::tagged(t.tag()) == t,
{
    reveal_strlit("none");
    reveal_strlit("json");
    reveal_strlit("text");
    reveal_strlit("form_url_encoded");
    reveal_strlit("multipart");
    reveal_strlit("graphql");
    assert("none"@.len() == 4 && "none"@[0] == 'n');
    assert("json"@.len() == 4 && "json"@[0] == 'j');
    assert("text"@.len() == 4 && "text"@[0] == 't');
    assert("form_url_encoded"@.len() == 16 && "form_url_encoded"@[0] == 'f');
    assert("multipart"@.len() == 9 && "multipart"@[0] == 'm');
    assert("graphql"@.len() == 7 && "graphql"@[0] == 'g');
}

/// The authentication scheme of a request, as stored beside its settings.
#[derive(Debug, Clone, Copy, PartialEq, Eq)]
pub enum AuthType {
    NoAuth,
    Bearer,
    Basic,
    ApiKey,
    OAuth2,
    OAuth1,
    Digest,
    AwsV4,
}

impl AuthType {
    /// The stored tag of the scheme.
    pub open spec fn tag(self) -> Seq<char> {
        match self {
            AuthType::NoAuth => "none"@,
            AuthType::Bearer => "bearer"@,
            AuthType::Basic => "basic"@,
            AuthType::ApiKey => "api_key"@,
            AuthType::OAuth2 => "oauth2"@,
            AuthType::OAuth1 => "oauth1"@,
            AuthType::Digest => "digest"@,
            AuthType::AwsV4 => "aws_v4"@,
        }
    }

    /// The scheme a stored tag stands for; unknown tags mean no authentication.
    pub open spec fn tagged(s: Seq<char>) -> AuthType {
        if s == "bearer"@ {
            AuthType::Bearer
        } else if s == "basic"@ {
            AuthType::Basic
        } else if s == "api_key"@ {
            AuthType::ApiKey
        } else if s == "oauth2"@ {
            AuthType::OAuth2
        } else if s == "oauth1"@ {
            AuthType::OAuth1
        } else if s == "digest"@ {
            AuthType::Digest
        } else if s == "aws_v4"@ {
            AuthType::AwsV4
        } else {
            AuthType::NoAuth
        }
    }

    pub fn as_str(&self) -> (r: &str)
        ensures
            r@ == self.tag(),
    {
        match self {
            AuthType::NoAuth => "none",
            AuthType::Bearer => "bearer",
            AuthType::Basic => "basic",
            AuthType::ApiKey => "api_key",
            AuthType::OAuth2 => "oauth2",
            AuthType::OAuth1 => "oauth1",
            AuthType::Digest => "digest",
            AuthType::AwsV4 => "aws_v4",
        }
    }

    pub fn from_str(s: &str) -> (r: AuthType)
        ensures
            r == AuthType::tagged(s@),
    {
        if same_text(s, "bearer") {
            AuthType::Bearer
        } else if same_text(s, "basic") {
            AuthType::Basic
        } else if same_text(s, "api_key") {
            AuthType::ApiKey
        } else if same_text(s, "oauth2") {
            AuthType::OAuth2
        } else if same_text(s, "oauth1") {
            AuthType::OAuth1
        } else if same_text(s, "digest") {
            AuthType::Digest
        } else if same_text(s, "aws_v4") {
            AuthType::AwsV4
        } else {
            AuthType::NoAuth
        }
    }
}

/// A scheme's stored tag reads back as the same scheme.
pub proof fn auth_tag_round_trip(a: AuthType)
    ensures
        AuthType::tagged(a.tag()) == a,
{
    reveal_strlit("none");
    reveal_strlit("bearer");
    reveal_strlit("basic");
    reveal_strlit("api_key");
    reveal_strlit("oauth2");
    reveal_strlit("oauth1");
    reveal_strlit("digest");
    reveal_strlit("aws_v4");
    assert("none"@.len() == 4 && "none"@[0] == 'n');
    assert("bearer"@.len() == 6 && "bearer"@[0] == 'b');
    assert("basic"@.len() == 5 && "basic"@[0] == 'b');
    assert("api_key"@.len() == 7 && "api_key"@[0] == 'a');
    assert("oauth2"@.len() == 6 && "oauth2"@[0] == 'o');
    assert("oauth1"@.len() == 6 && "oauth1"@[0] == 'o');
    assert("digest"@.len() == 6 && "digest"@[0] == 'd');
    assert("aws_v4"@.len() == 6 && "aws_v4"@[0] == 'a');
    assert("oauth2"@[5] == '2');
    assert("oauth1"@[5] == '1');
}

/// Authentication settings, one variant per scheme. Only the fields that the
/// executor reads matter to it; the rest are kept for storage and display.
#[derive(Debug, Clone)]
pub enum AuthConfig {
    NoAuth,
    Bearer { token: String },
    Basic { username: String, password: String },
    ApiKey { key: String, value: String, location: String },
    OAuth2 {
        grant_type: String,
        access_token: String,
        token_url: String,
        auth_url: String,
        client_id: String,
        client_secret: String,
        scope: String,
        username: String,
        password: String,
        redirect_uri: String,
    },
    OAuth1 {
        consumer_key: String,
        consumer_secret: String,
        token: String,
        token_secret: String,
        signature_method: String,
    },
    Digest { username: String, password: String },
    AwsV4 { access_key: String, secret_key: String, region: String, service: String },
}

impl AuthConfig {
    /// A copy equal to these settings.
    pub fn duplicate(&self) -> (r: AuthConfig)
        ensures
            r == *self,
    {
        match self {
            AuthConfig::NoAuth => AuthConfig::NoAuth,
            AuthConfig::Bearer { token } => AuthConfig::Bearer { token: token.clone() },
            AuthConfig::Basic { username, password } => AuthConfig::Basic {
                username: username.clone(),
                password: password.clone(),
            },
            AuthConfig::ApiKey { key, value, location } => AuthConfig::ApiKey {
                key: key.clone(),
                value: value.clone(),
                location: location.clone(),
            },
            AuthConfig::OAuth2 {
                grant_type,
                access_token,
                token_url,
                auth_url,
                client_id,
                client_secret,
                scope,
                username,
                password,
                redirect_uri,
            } => AuthConfig::OAuth2 {
                grant_type: grant_type.clone(),
                access_token: access_token.clone(),
                token_url: token_url.clone(),
                auth_url: auth_url.clone(),
                client_id: client_id.clone(),
                client_secret: client_secret.clone(),
                scope: scope.clone(),
                username: username.clone(),
                password: password.clone(),
                redirect_uri: redirect_uri.clone(),
            },
            AuthConfig::OAuth1 { consumer_key, consumer_secret, token, token_secret, signature_method } =>
                AuthConfig::OAuth1 {
                consumer_key: consumer_key.clone(),
                consumer_secret: consumer_secret.clone(),
                token: token.clone(),
                token_secret: token_secret.clone(),
                signature_method: signature_method.clone(),
            },
            AuthConfig::Digest { username, password } => AuthConfig::Digest {
                username: username.clone(),
                password: password.clone(),
            },
            AuthConfig::AwsV4 { access_key, secret_key, region, service } => AuthConfig::AwsV4 {
                access_key: access_key.clone(),
                secret_key: secret_key.clone(),
                region: region.clone(),
                service: service.clone(),
            },
        }
    }
}

/// A stored request.
#[derive(Debug, Clone)]
pub struct ApiRequest {
    pub id: String,
    pub name: String,
    pub method: HttpMethod,
    pub url: String,
    pub headers: Vec<KeyValue>,
    pub query_params: Vec<KeyValue>,
    pub body_type: BodyType,
    pub body_content: Option<String>,
    pub auth_type: AuthType,
    pub auth_config: AuthConfig,
    pub collection_id: Option<String>,
    pub folder_id: Option<String>,
    pub sort_order: i32,
    pub created_at: String,
    pub updated_at: String,
}

impl ApiRequest {
    /// Field by field the same request (lists compared by their contents).
    pub open spec fn same_as(self, other: ApiRequest) -> bool {
        &&& self.id == other.id
        &&& self.name == other.name
        &&& self.method == other.method
        &&& self.url == other.url
        &&& self.headers@ == other.headers@
        &&& self.query_params@ == other.query_params@
        &&& self.body_type == other.body_type
        &&& self.body_content == other.body_content
        &&& self.auth_type == other.auth_type
        &&& self.auth_config == other.auth_config
        &&& self.collection_id == other.collection_id
        &&& self.folder_id == other.folder_id
        &&& self.sort_order == other.sort_order
        &&& self.created_at == other.created_at
        &&& self.updated_at == other.updated_at
    }

    /// A copy of this request.
    pub fn duplicate(&self) -> (r: ApiRequest)
        ensures
            r.same_as(*self),
    {
        ApiRequest {
            id: self.id.clone(),
            name: self.name.clone(),
            method: self.method,
            url: self.url.clone(),
            headers: duplicate_pairs(&self.headers),
            query_params: duplicate_pairs(&self.query_params),
            body_type: self.body_type,
            body_content: duplicate_text(&self.body_content),
            auth_type: self.auth_type,
            auth_config: self.auth_config.duplicate(),
            collection_id: duplicate_text(&self.collection_id),
            folder_id: duplicate_text(&self.folder_id),
            sort_order: self.sort_order,
            created_at: self.created_at.clone(),
            updated_at: self.updated_at.clone(),
        }
    }
}

/// What a new request is made from.
#[derive(Debug, Clone)]
pub struct CreateRequestInput {
    pub name: String,
    pub method: HttpMethod,
    pub url: String,
    pub headers: Vec<KeyValue>,
    pub query_params: Vec<KeyValue>,
    pub body_type: BodyType,
    pub body_content: Option<String>,
    pub auth_type: AuthType,
    pub auth_config: AuthConfig,
    pub collection_id: Option<String>,
    pub folder_id: Option<String>,
}

/// A partial change to a stored request: each present field replaces the stored one.
#[derive(Debug, Clone)]
pub struct UpdateRequestInput {
    pub id: String,
    pub name: Option<String>,
    pub method: Option<HttpMethod>,
    pub url: Option<String>,
    pub headers: Option<Vec<KeyValue>>,
    pub query_params: Option<Vec<KeyValue>>,
    pub body_type: Option<BodyType>,
    pub body_content: Option<String>,
    pub auth_type: Option<AuthType>,
    pub auth_config: Option<AuthConfig>,
    pub collection_id: Option<String>,
    pub folder_id: Option<String>,
    pub sort_order: Option<i32>,
}

/// Transport policy for one execution.
#[derive(Debug, Clone, Copy)]
pub struct RequestSettings {
    pub timeout_ms: u64,
    pub follow_redirects: bool,
    pub max_redirects: usize,
}

/// A fully resolved request, ready to execute.
#[derive(Debug, Clone)]
pub struct ExecuteRequestInput {
    pub method: HttpMethod,
    pub url: String,
    pub headers: Vec<KeyValue>,
    pub query_params: Vec<KeyValue>,
    pub body_type: BodyType,
    pub body_content: Option<String>,
    pub auth_type: AuthType,
    pub auth_config: AuthConfig,
    pub settings: RequestSettings,
}

} // verus!
