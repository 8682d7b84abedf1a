//! From a resolved request to what the transport sends.

use vstd::prelude::*;

use reqwest::header::HeaderMap;

use crate::auth::{apply_auth, auth_effect};
use crate::body::{body_of, encode_body, outgoing_view, OutgoingBody};
use crate::execution::{is_transport_failure, transport_failure, well_shaped, ExecutionResult, SendFailure};
use crate::headers::{build_header_map, header_entries, no_headers, with_enabled_headers, MAX_HEADER_ENTRIES};
use crate::query::{append_query, with_query};
use crate::request::{ExecuteRequestInput, HttpMethod, RequestSettings};
use crate::text::text_of;

verus! {

/// Whether and how far the transport follows redirects.
#[derive(Debug, Clone, Copy, PartialEq, Eq)]
pub enum RedirectPolicy {
    Limited(usize),
    Never,
}

/// Everything the transport needs to send one request.
#[derive(Debug)]
pub struct PreparedRequest {
    pub method: HttpMethod,
    pub url: String,
    pub headers: HeaderMap,
    pub body: Option<OutgoingBody>,
    pub timeout_ms: u64,
    pub redirects: RedirectPolicy,
}

/// The redirect policy of the settings: follow up to the limit, or never.
pub open spec fn redirect_policy(settings: RequestSettings) -> RedirectPolicy {
    if settings.follow_redirects {
        RedirectPolicy::Limited(settings.max_redirects)
    } else {
        RedirectPolicy::Never
    }
}

pub fn redirects_of(settings: &RequestSettings) -> (r: RedirectPolicy)
    ensures
        r == redirect_policy(*settings),
{
    if settings.follow_redirects {
        RedirectPolicy::Limited(settings.max_redirects)
    } else {
        RedirectPolicy::Never
    }
}

/// The header entries and URL of a request: enabled headers and enabled query
/// parameters first, then the authentication scheme on top of them.
pub open spec fn prepared_target(input: ExecuteRequestInput) -> (Map<Seq<char>, Seq<char>>, Seq<char>) {
    auth_effect(
        input.auth_config,
        with_enabled_headers(no_headers(), input.headers@),
        with_query(input.url@, input.query_params@),
    )
}

/// What is sent for a resolved request.
pub open spec fn prepared_for(p: PreparedRequest, input: ExecuteRequestInput) -> bool {
    &&& p.method == input.method
    &&& (header_entries(p.headers), p.url@) == prepared_target(input)
    &&& outgoing_view(p.body) == body_of(input.body_type, text_of(input.body_content))
    &&& p.timeout_ms == input.settings.timeout_ms
    &&& p.redirects == redirect_policy(input.settings)
}

/// Turns a resolved request into what is sent: the URL with its query, the
/// header map with authentication applied, the encoded body with its content
/// type, and the transport policy.
pub fn prepare_request(input: &ExecuteRequestInput) -> (p: PreparedRequest)
    requires
        input.headers@.len() < MAX_HEADER_ENTRIES,
    ensures
        prepared_for(p, *input),
{
    let mut url = append_query(input.url.as_str(), &input.query_params);
    let mut headers = build_header_map(&input.headers);
    apply_auth(&input.auth_config, &mut headers, &mut url);
    let body = encode_body(input.body_type, &input.body_content);
    PreparedRequest {
        method: input.method,
        url,
        headers,
        body,
        timeout_ms: input.settings.timeout_ms,
        redirects: redirects_of(&input.settings),
    }
}

/// The detail of the failure for a request with too many headers.
pub open spec fn too_many_headers() -> Seq<char> {
    "too many headers"@
}

/// Prepares the request, or, when it has more headers than can be sent,
/// gives the failure before any response that it ends in.
pub fn prepare_or_reject(input: &ExecuteRequestInput) -> (r: Result<PreparedRequest, ExecutionResult>)
    ensures
        r is Ok <==> input.headers@.len() < MAX_HEADER_ENTRIES,
        r matches Ok(p) ==> prepared_for(p, *input),
        r matches Err(f) ==> well_shaped(f) && is_transport_failure(f, SendFailure::Other, too_many_headers(), 0),
{
    if input.headers.len() < MAX_HEADER_ENTRIES {
        Ok(prepare_request(input))
    } else {
        Err(transport_failure(SendFailure::Other, "too many headers", 0))
    }
}

} // verus!
