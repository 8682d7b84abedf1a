use steq::execution::{
    client_failure, history_outcome, response_result, result_of, transport_failure, ExecutionOutcome,
    ExecutionResult, ReceivedHeader, SendFailure,
};
use steq::executor::{prepare_or_reject, prepare_request, RedirectPolicy};
use steq::headers::MAX_HEADER_ENTRIES;
use steq::request::{AuthConfig, AuthType, BodyType, ExecuteRequestInput, HttpMethod, KeyValue, RequestSettings};

fn kv(key: &str, value: &str, enabled: bool) -> KeyValue {
    KeyValue { key: key.to_string(), value: value.to_string(), enabled }
}

fn scenario_input() -> ExecuteRequestInput {
    ExecuteRequestInput {
        method: HttpMethod::GET,
        url: "http://127.0.0.1:9/users".to_string(),
        headers: vec![kv("Accept", "application/json", true), kv("X-Debug", "1", false)],
        query_params: vec![kv("page", "1", true)],
        body_type: BodyType::NoBody,
        body_content: None,
        auth_type: AuthType::NoAuth,
        auth_config: AuthConfig::NoAuth,
        settings: RequestSettings { timeout_ms: 30000, follow_redirects: true, max_redirects: 5 },
    }
}

fn well_shaped(r: &ExecutionResult) -> bool {
    (r.status != 0 || r.error.is_some()) && r.timing.first_byte_us <= r.timing.total_us
}

#[test]
fn prepared_scenario_request() {
    let p = prepare_request(&scenario_input());
    assert_eq!(p.method, HttpMethod::GET);
    assert_eq!(p.url, "http://127.0.0.1:9/users?page=1");
    assert_eq!(p.headers.len(), 1);
    assert_eq!(p.headers.get("accept").unwrap().to_str().unwrap(), "application/json");
    assert!(p.headers.get("x-debug").is_none());
    assert!(p.body.is_none());
    assert_eq!(p.timeout_ms, 30000);
    assert_eq!(p.redirects, RedirectPolicy::Limited(5));
}

#[test]
fn prepared_request_with_auth_and_body() {
    let mut input = scenario_input();
    input.method = HttpMethod::POST;
    input.body_type = BodyType::Json;
    input.body_content = Some("{\"a\":1}".to_string());
    input.auth_config = AuthConfig::ApiKey { key: "key".into(), value: "v".into(), location: "query".into() };
    input.settings.follow_redirects = false;
    let p = prepare_request(&input);
    assert_eq!(p.url, "http://127.0.0.1:9/users?page=1&key=v");
    let body = p.body.unwrap();
    assert_eq!(body.content_type, "application/json");
    assert_eq!(body.content, "{\"a\":1}");
    assert_eq!(p.redirects, RedirectPolicy::Never);
}

#[test]
fn scenario_success_response() {
    let received = vec![
        ReceivedHeader { name: "content-type".into(), text: Some("application/json".into()) },
        ReceivedHeader { name: "x-bin".into(), text: None },
    ];
    let body = br#"{"users":[]}"#.to_vec();
    let r = response_result(200, &received, &Ok(body), 1500, 2500);
    assert_eq!(r.status, 200);
    assert_eq!(r.status_text, "OK");
    assert_eq!(r.body, r#"{"users":[]}"#);
    assert_eq!(r.size_bytes, 12);
    assert!(r.error.is_none());
    assert_eq!(r.headers.len(), 2);
    assert_eq!((r.headers[0].key.as_str(), r.headers[0].value.as_str()), ("content-type", "application/json"));
    assert_eq!((r.headers[1].key.as_str(), r.headers[1].value.as_str()), ("x-bin", ""));
    assert!(r.headers.iter().all(|h| h.enabled));
    assert_eq!((r.timing.first_byte_us, r.timing.total_us), (1500, 2500));
    assert!(r.timing.dns_us.is_none() && r.timing.connect_us.is_none() && r.timing.tls_us.is_none());
    assert!(well_shaped(&r));
}

#[test]
fn scenario_unreachable_server() {
    let r = transport_failure(SendFailure::Connect, "tcp connect error: Connection refused", 840);
    assert_eq!(r.status, 0);
    assert_eq!(r.body, "");
    assert!(r.headers.is_empty());
    assert_eq!(r.error.as_deref(), Some("Connection failed: tcp connect error: Connection refused"));
    assert!(r.timing.total_us > 0);
    assert_eq!(r.timing.first_byte_us, 0);
    assert!(well_shaped(&r));
}

#[test]
fn transport_failure_messages() {
    assert_eq!(transport_failure(SendFailure::TimedOut, "x", 5).error.as_deref(), Some("Request timed out"));
    assert_eq!(transport_failure(SendFailure::Other, "builder error", 0).error.as_deref(), Some("Request failed: builder error"));
}

#[test]
fn client_failure_result() {
    let r = client_failure("bad config");
    assert_eq!(r.status, 0);
    assert_eq!(r.error.as_deref(), Some("Failed to create HTTP client: bad config"));
    assert_eq!((r.timing.first_byte_us, r.timing.total_us), (0, 0));
    assert!(r.status_text.is_empty() && r.body.is_empty() && r.size_bytes == 0);
    assert!(well_shaped(&r));
}

#[test]
fn body_read_failure_keeps_partial_response() {
    let received = vec![ReceivedHeader { name: "server".into(), text: Some("test".into()) }];
    let r = response_result(404, &received, &Err("connection reset".to_string()), 10, 20);
    assert_eq!(r.status, 404);
    assert_eq!(r.status_text, "Not Found");
    assert_eq!(r.headers.len(), 1);
    assert_eq!(r.headers[0].value, "test");
    assert_eq!(r.body, "");
    assert_eq!(r.size_bytes, 0);
    assert_eq!(r.error.as_deref(), Some("Failed to read response body: connection reset"));
    assert!(well_shaped(&r));
}

#[test]
fn body_decoded_lossily() {
    let r = response_result(599, &Vec::new(), &Ok(vec![b'a', 0xff, b'b']), 0, 0);
    assert_eq!(r.body, "a\u{fffd}b");
    assert_eq!(r.size_bytes, 3);
    assert_eq!(r.status_text, "");
}

#[test]
fn every_outcome_gives_a_well_shaped_result() {
    let outcomes = vec![
        ExecutionOutcome::ClientFailed { detail: "bad".into() },
        ExecutionOutcome::SendFailed { kind: SendFailure::TimedOut, detail: "t".into(), total_us: 30_000_000 },
        ExecutionOutcome::SendFailed { kind: SendFailure::Connect, detail: "refused".into(), total_us: 12 },
        ExecutionOutcome::Responded {
            status: 204,
            headers: vec![],
            body: Ok(vec![]),
            first_byte_us: 5,
            total_us: 5,
        },
        ExecutionOutcome::Responded {
            status: 500,
            headers: vec![ReceivedHeader { name: "a".into(), text: Some("b".into()) }],
            body: Err("reset".into()),
            first_byte_us: 5,
            total_us: 9,
        },
    ];
    for o in &outcomes {
        let r = result_of(o);
        assert!(well_shaped(&r));
        assert_eq!(r.status == 0, !matches!(o, ExecutionOutcome::Responded { .. }));
    }
    let partial = result_of(&outcomes[4]);
    assert_eq!(partial.headers.len(), 1);
    assert_eq!(partial.error.as_deref(), Some("Failed to read response body: reset"));
    assert_eq!(result_of(&outcomes[1]).error.as_deref(), Some("Request timed out"));
}

#[test]
fn history_keeps_status_size_and_whole_milliseconds() {
    let ok = response_result(201, &Vec::new(), &Ok(b"abc".to_vec()), 100, 2_999);
    let h = history_outcome(&ok);
    assert_eq!((h.response_status, h.response_size, h.duration_ms), (Some(201), 3, 2));
    let failed = transport_failure(SendFailure::Connect, "x", 1_500);
    let h = history_outcome(&failed);
    assert_eq!((h.response_status, h.response_size, h.duration_ms), (None, 0, 1));
}

#[test]
fn too_many_headers_is_a_failure_result() {
    let mut input = scenario_input();
    input.headers = (0..MAX_HEADER_ENTRIES).map(|i| kv(&format!("x-h{}", i), "v", true)).collect();
    let r = prepare_or_reject(&input).unwrap_err();
    assert_eq!(r.status, 0);
    assert_eq!(r.error.as_deref(), Some("Request failed: too many headers"));
    assert!(well_shaped(&r));
    input.headers.pop();
    let p = prepare_or_reject(&input).unwrap();
    assert_eq!(p.headers.len(), MAX_HEADER_ENTRIES - 1);
}
