//! Collections in the Postman v2.1 format, as read from a file.

use vstd::prelude::*;

verus! {

#[verifier::external_type_specification]
#[verifier::external_body]
pub struct ExJsonValue(serde_json::Value);

/// A collection in the Postman v2.1 format.
#[derive(Debug)]
pub struct PostmanCollection {
    pub info: PostmanInfo,
    pub item: Vec<PostmanItem>,
}

#[derive(Debug, Clone)]
pub struct PostmanInfo {
    pub name: String,
    pub description: Option<String>,
}

/// A folder of further items, or a request.
#[derive(Debug)]
pub enum PostmanItem {
    Folder { name: String, item: Vec<PostmanItem> },
    Request { name: String, request: PostmanRequest },
}

#[derive(Debug)]
pub struct PostmanRequest {
    pub method: Option<String>,
    pub url: PostmanUrl,
    pub header: Vec<PostmanHeader>,
    pub body: Option<PostmanBody>,
}

/// A request URL: a plain string, or its parts with the raw text.
#[derive(Debug)]
pub enum PostmanUrl {
    Simple(String),
    Structured {
        raw: Option<String>,
        host: Option<serde_json::Value>,
        path: Option<serde_json::Value>,
        query: Option<Vec<PostmanQueryParam>>,
    },
}

#[derive(Debug, Clone)]
pub struct PostmanQueryParam {
    pub key: String,
    pub value: Option<String>,
    pub disabled: Option<bool>,
}

#[derive(Debug, Clone)]
pub struct PostmanHeader {
    pub key: String,
    pub value: String,
    pub disabled: Option<bool>,
}

#[derive(Debug, Clone)]
pub struct PostmanBody {
    pub mode: Option<String>,
    pub raw: Option<String>,
    pub options: Option<PostmanBodyOptions>,
}

#[derive(Debug, Clone)]
pub struct PostmanBodyOptions {
    pub raw: Option<PostmanRawOptions>,
}

#[derive(Debug, Clone)]
pub struct PostmanRawOptions {
    pub language: Option<String>,
}

/// What an import created.
#[derive(Debug, Clone)]
pub struct ImportResult {
    pub collection_name: String,
    pub request_count: usize,
    pub folder_count: usize,
}

/// A copy of a query parameter with the same fields.
pub open spec fn same_param(a: PostmanQueryParam, b: PostmanQueryParam) -> bool {
    &&& a.key@ == b.key@
    &&& match (a.value, b.value) {
        (Some(x), Some(y)) => x@ == y@,
        (None, None) => true,
        _ => false,
    }
    &&& a.disabled == b.disabled
}

fn copy_param(p: &PostmanQueryParam) -> (r: PostmanQueryParam)
    ensures
        same_param(r, *p),
{
    PostmanQueryParam {
        key: p.key.clone(),
        value: match &p.value {
            Some(v) => Some(v.clone()),
            None => None,
        },
        disabled: p.disabled,
    }
}

impl PostmanUrl {
    /// The URL text: the string itself, or the raw text (empty when absent).
    pub open spec fn raw_text(&self) -> Seq<char> {
        match self {
            PostmanUrl::Simple(s) => s@,
            PostmanUrl::Structured { raw, .. } => match raw {
                Some(r) => r@,
                None => Seq::empty(),
            },
        }
    }

    /// The query parameters listed in the URL's parts; none for a plain string.
    pub open spec fn listed_params(&self) -> Seq<PostmanQueryParam> {
        match self {
            PostmanUrl::Simple(_) => Seq::empty(),
            PostmanUrl::Structured { query, .. } => match query {
                Some(q) => q@,
                None => Seq::empty(),
            },
        }
    }

    pub fn raw_url(&self) -> (r: String)
        ensures
            r@ == self.raw_text(),
    {
        match self {
            PostmanUrl::Simple(s) => s.clone(),
            PostmanUrl::Structured { raw, .. } => match raw {
                Some(r) => r.clone(),
                None => String::new(),
            },
        }
    }

    pub fn query_params(&self) -> (r: Vec<PostmanQueryParam>)
        ensures
            r@.len() == self.listed_params().len(),
            forall|i: int| 0 <= i < r@.len() ==> same_param(#[trigger] r@[i], self.listed_params()[i]),
    {
        let mut out: Vec<PostmanQueryParam> = Vec::new();
        match self {
            PostmanUrl::Simple(_) => {},
            PostmanUrl::Structured { query, .. } => match query {
                Some(q) => {
                    let mut i: usize = 0;
                    while i < q.len()
                        invariant
                            i <= q@.len(),
                            self.listed_params() == q@,
                            out@.len() == i,
                            forall|j: int| 0 <= j < i ==> same_param(#[trigger] out@[j], q@[j]),
                        decreases q@.len() - i,
                    {
                        out.push(copy_param(&q[i]));
                        i = i + 1;
                    }
                },
                None => {},
            },
        }
        out
    }
}

} // verus!
