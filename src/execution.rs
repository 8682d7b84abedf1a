//! The result of an execution and how each transport outcome shapes it.

use vstd::prelude::*;
use vstd::string::*;
use vstd::utf8::{decode_utf8, valid_utf8};

use crate::request::KeyValue;
use crate::text::joined;

verus! {

/// Timings of one execution, in microseconds from dispatch. The connection
/// phase timings are reserved for a transport that reports them.
#[derive(Debug, Clone, Copy)]
pub struct ExecutionTiming {
    pub dns_us: Option<u64>,
    pub connect_us: Option<u64>,
    pub tls_us: Option<u64>,
    pub first_byte_us: u64,
    pub total_us: u64,
}

/// The outcome of one execution. A zero status with an error means no
/// response line arrived; a status with an error means the body failed.
#[derive(Debug, Clone)]
pub struct ExecutionResult {
    pub status: u16,
    pub status_text: String,
    pub headers: Vec<KeyValue>,
    pub body: String,
    pub size_bytes: u64,
    pub timing: ExecutionTiming,
    pub error: Option<String>,
}

/// How the transport classified a failure before any response.
#[derive(Debug, Clone, Copy, PartialEq, Eq)]
pub enum SendFailure {
    TimedOut,
    Connect,
    Other,
}

/// One response header as received: its name, and its value when the value
/// is visible ASCII text.
#[derive(Debug, Clone)]
pub struct ReceivedHeader {
    pub name: String,
    pub text: Option<String>,
}

/// The shape every result has: a zero status always carries an error, an
/// error beside a status means an empty body, and the first byte never comes
/// after the end.
pub open spec fn well_shaped(r: ExecutionResult) -> bool {
    &&& r.status == 0 ==> r.error is Some
    &&& (r.error is Some && r.status != 0) ==> (r.body@.len() == 0 && r.size_bytes == 0)
    &&& r.timing.first_byte_us <= r.timing.total_us
    &&& r.timing.dns_us is None && r.timing.connect_us is None && r.timing.tls_us is None
}

/// The error text of a failure before any response.
pub open spec fn send_failure_message(kind: SendFailure, detail: Seq<char>) -> Seq<char> {
    match kind {
        SendFailure::TimedOut => "Request timed out"@,
        SendFailure::Connect => "Connection failed: "@ + detail,
        SendFailure::Other => "Request failed: "@ + detail,
    }
}

/// What `String::from_utf8_lossy` makes of bytes: invalid sequences become
/// U+FFFD.
pub uninterp spec fn utf8_lossy(b: Seq<u8>) -> Seq<char>;

/// The reason phrase that `StatusCode::canonical_reason` gives for a code.
pub uninterp spec fn reason_phrase(code: u16) -> Option<Seq<char>>;

/// Relies on `String::from_utf8_lossy`, which decodes valid UTF-8 as it is.
#[verifier::external_body]
fn lossy_text(b: &Vec<u8>) -> (r: String)
    ensures
        r@ == utf8_lossy(b@),
        valid_utf8(b@) ==> r@ == decode_utf8(b@),
{
    String::from_utf8_lossy(b).into_owned()
}

/// Relies on `StatusCode::from_u16` and `StatusCode::canonical_reason`
/// (http, re-exported by reqwest): the registered phrase of the code, if any.
#[verifier::external_body]
fn canonical_reason(code: u16) -> (r: Option<String>)
    ensures
        r matches Some(t) ==> reason_phrase(code) == Some(t@),
        r is None ==> reason_phrase(code) is None,
{
    reqwest::StatusCode::from_u16(code).ok().and_then(|c| c.canonical_reason()).map(|t| t.to_owned())
}

fn no_timing(total_us: u64) -> (t: ExecutionTiming)
    ensures
        t.dns_us is None && t.connect_us is None && t.tls_us is None,
        t.first_byte_us == 0,
        t.total_us == total_us,
{
    ExecutionTiming { dns_us: None, connect_us: None, tls_us: None, first_byte_us: 0, total_us }
}

/// The result of a client that could not be built: status 0, nothing
/// received, no time spent, and the builder's error.
pub open spec fn is_client_failure(r: ExecutionResult, detail: Seq<char>) -> bool {
    &&& r.status == 0
    &&& r.status_text@.len() == 0
    &&& r.headers@.len() == 0
    &&& r.body@.len() == 0
    &&& r.size_bytes == 0
    &&& r.timing.total_us == 0 && r.timing.first_byte_us == 0
    &&& r.error matches Some(e) && e@ == "Failed to create HTTP client: "@ + detail
}

/// The result when the client could not be built from the settings.
pub fn client_failure(detail: &str) -> (r: ExecutionResult)
    ensures
        well_shaped(r),
        is_client_failure(r, detail@),
{
    ExecutionResult {
        status: 0,
        status_text: String::new(),
        headers: Vec::new(),
        body: String::new(),
        size_bytes: 0,
        timing: no_timing(0),
        error: Some(joined("Failed to create HTTP client: ", detail)),
    }
}

/// The result of a request that failed before any response: status 0,
/// nothing received, the time until the failure, and the message for its kind.
pub open spec fn is_transport_failure(r: ExecutionResult, kind: SendFailure, detail: Seq<char>, total_us: u64) -> bool {
    &&& r.status == 0
    &&& r.status_text@.len() == 0
    &&& r.headers@.len() == 0
    &&& r.body@.len() == 0
    &&& r.size_bytes == 0
    &&& r.timing.first_byte_us == 0
    &&& r.timing.total_us == total_us
    &&& r.error matches Some(e) && e@ == send_failure_message(kind, detail)
}

/// The result when the request failed before any response: a timeout, a
/// connection failure, or another transport failure.
pub fn transport_failure(kind: SendFailure, detail: &str, total_us: u64) -> (r: ExecutionResult)
    ensures
        well_shaped(r),
        is_transport_failure(r, kind, detail@, total_us),
{
    let message = match kind {
        SendFailure::TimedOut => "Request timed out".to_owned(),
        SendFailure::Connect => joined("Connection failed: ", detail),
        SendFailure::Other => joined("Request failed: ", detail),
    };
    ExecutionResult {
        status: 0,
        status_text: String::new(),
        headers: Vec::new(),
        body: String::new(),
        size_bytes: 0,
        timing: no_timing(total_us),
        error: Some(message),
    }
}

/// A received header as an enabled pair; a value that is not visible ASCII
/// reads as empty.
pub open spec fn received_pair_matches(kv: KeyValue, h: ReceivedHeader) -> bool {
    &&& kv.key@ == h.name@
    &&& kv.value@ == match h.text {
        Some(t) => t@,
        None => Seq::empty(),
    }
    &&& kv.enabled
}

/// The received headers as enabled pairs, in order.
pub fn response_headers(received: &Vec<ReceivedHeader>) -> (r: Vec<KeyValue>)
    ensures
        r@.len() == received@.len(),
        forall|i: int| 0 <= i < r@.len() ==> received_pair_matches(#[trigger] r@[i], received@[i]),
{
    let mut out: Vec<KeyValue> = Vec::new();
    let mut i: usize = 0;
    while i < received.len()
        invariant
            i <= received@.len(),
            out@.len() == i,
            forall|j: int| 0 <= j < i ==> received_pair_matches(#[trigger] out@[j], received@[j]),
        decreases received@.len() - i,
    {
        let h = &received[i];
        let value = match &h.text {
            Some(t) => t.clone(),
            None => String::new(),
        };
        out.push(KeyValue { key: h.name.clone(), value, enabled: true });
        i = i + 1;
    }
    out
}

/// The result of a received response: its status, reason phrase and headers,
/// the timings, and either the body (decoded lossily, its size in bytes) or
/// an empty body with the read failure as the error.
pub open spec fn is_response_result(
    r: ExecutionResult,
    status: u16,
    received: Seq<ReceivedHeader>,
    body: Result<Vec<u8>, String>,
    first_byte_us: u64,
    total_us: u64,
) -> bool {
    &&& r.status == status
    &&& r.status_text@ == match reason_phrase(status) {
        Some(t) => t,
        None => Seq::empty(),
    }
    &&& r.headers@.len() == received.len()
    &&& forall|i: int| 0 <= i < r.headers@.len() ==> received_pair_matches(#[trigger] r.headers@[i], received[i])
    &&& r.timing.first_byte_us == first_byte_us
    &&& r.timing.total_us == total_us
    &&& match body {
        Ok(b) => {
            &&& r.error is None
            &&& r.body@ == utf8_lossy(b@)
            &&& valid_utf8(b@) ==> r.body@ == decode_utf8(b@)
            &&& r.size_bytes == b@.len()
        },
        Err(e) => {
            &&& r.error matches Some(m) && m@ == "Failed to read response body: "@ + e@
            &&& r.body@.len() == 0
            &&& r.size_bytes == 0
        },
    }
}

/// The result once the status line and headers arrived: with the body
/// (decoded lossily as UTF-8, its size in bytes) when it was read, or with an
/// empty body and the read failure as the error.
pub fn response_result(
    status: u16,
    received: &Vec<ReceivedHeader>,
    body: &Result<Vec<u8>, String>,
    first_byte_us: u64,
    total_us: u64,
) -> (r: ExecutionResult)
    requires
        100 <= status <= 999,
        first_byte_us <= total_us,
    ensures
        well_shaped(r),
        is_response_result(r, status, received@, *body, first_byte_us, total_us),
{
    let status_text = match canonical_reason(status) {
        Some(t) => t,
        None => String::new(),
    };
    let headers = response_headers(received);
    let timing = ExecutionTiming { dns_us: None, connect_us: None, tls_us: None, first_byte_us, total_us };
    match body {
        Ok(b) => {
            let text = lossy_text(b);
            ExecutionResult {
                status,
                status_text,
                headers,
                body: text,
                size_bytes: b.len() as u64,
                timing,
                error: None,
            }
        },
        Err(e) => ExecutionResult {
            status,
            status_text,
            headers,
            body: String::new(),
            size_bytes: 0,
            timing,
            error: Some(joined("Failed to read response body: ", e.as_str())),
        },
    }
}

/// What the transport reported for one attempt.
#[derive(Debug)]
pub enum ExecutionOutcome {
    /// The client could not be built from the settings.
    ClientFailed { detail: String },
    /// The request failed before any response line arrived.
    SendFailed { kind: SendFailure, detail: String, total_us: u64 },
    /// The status line and headers arrived; the body was read or failed.
    Responded {
        status: u16,
        headers: Vec<ReceivedHeader>,
        body: Result<Vec<u8>, String>,
        first_byte_us: u64,
        total_us: u64,
    },
}

/// An outcome the transport can report: a received status is a valid code,
/// and the end is never read before the first byte.
pub open spec fn possible_outcome(o: ExecutionOutcome) -> bool {
    match o {
        ExecutionOutcome::Responded { status, first_byte_us, total_us, .. } => {
            100 <= status <= 999 && first_byte_us <= total_us
        },
        _ => true,
    }
}

/// The result of an attempt, whatever its outcome: a failure before any
/// response has status 0 and an error; a response keeps its status and
/// headers, with the body or the body's read error.
pub fn result_of(outcome: &ExecutionOutcome) -> (r: ExecutionResult)
    requires
        possible_outcome(*outcome),
    ensures
        well_shaped(r),
        r.status == 0 <==> !(*outcome is Responded),
        match *outcome {
            ExecutionOutcome::ClientFailed { detail } => is_client_failure(r, detail@),
            ExecutionOutcome::SendFailed { kind, detail, total_us } => is_transport_failure(r, kind, detail@, total_us),
            ExecutionOutcome::Responded { status, headers, body, first_byte_us, total_us } => is_response_result(
                r,
                status,
                headers@,
                body,
                first_byte_us,
                total_us,
            ),
        },
{
    match outcome {
        ExecutionOutcome::ClientFailed { detail } => client_failure(detail.as_str()),
        ExecutionOutcome::SendFailed { kind, detail, total_us } => transport_failure(*kind, detail.as_str(), *total_us),
        ExecutionOutcome::Responded { status, headers, body, first_byte_us, total_us } => {
            response_result(*status, headers, body, *first_byte_us, *total_us)
        },
    }
}

/// What the history keeps of a result: the status only when one was
/// received, the body size (saturated to the stored integer), and the
/// duration in whole milliseconds.
#[derive(Debug, Clone, Copy)]
pub struct HistoryOutcome {
    pub response_status: Option<i32>,
    pub response_size: i64,
    pub duration_ms: i64,
}

pub fn history_outcome(r: &ExecutionResult) -> (h: HistoryOutcome)
    ensures
        h.response_status == if r.status > 0 {
            Some(r.status as i32)
        } else {
            None
        },
        r.size_bytes <= i64::MAX ==> h.response_size == r.size_bytes,
        r.size_bytes > i64::MAX ==> h.response_size == i64::MAX,
        h.duration_ms == r.timing.total_us / 1000,
{
    let response_status = if r.status > 0 {
        Some(r.status as i32)
    } else {
        None
    };
    let response_size = if r.size_bytes <= i64::MAX as u64 {
        r.size_bytes as i64
    } else {
        i64::MAX
    };
    HistoryOutcome { response_status, response_size, duration_ms: (r.timing.total_us / 1000) as i64 }
}

} // verus!
