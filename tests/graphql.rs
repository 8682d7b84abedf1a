use steq::body::{build_graphql_body, encode_body, envelope_from_members, frame_graphql_body, json_quote};
use steq::request::BodyType;

#[test]
fn build_graphql_body_basic() {
    let input = r#"{"query":"query { users { id } }","variables":"","operationName":""}"#;
    let result = build_graphql_body(input);
    let parsed: serde_json::Value = serde_json::from_str(&result).unwrap();
    assert_eq!(parsed["query"], "query { users { id } }");
    assert!(parsed.get("variables").is_none());
    assert!(parsed.get("operationName").is_none());
}

#[test]
fn build_graphql_body_with_variables() {
    let input = r#"{"query":"query GetUser($id: ID!) { user(id: $id) { name } }","variables":"{\"id\":\"123\"}","operationName":"GetUser"}"#;
    let result = build_graphql_body(input);
    let parsed: serde_json::Value = serde_json::from_str(&result).unwrap();
    assert_eq!(parsed["query"], "query GetUser($id: ID!) { user(id: $id) { name } }");
    assert_eq!(parsed["variables"]["id"], "123");
    assert_eq!(parsed["operationName"], "GetUser");
}

#[test]
fn build_graphql_body_invalid_json_passthrough() {
    let input = "not valid json";
    let result = build_graphql_body(input);
    assert_eq!(result, "not valid json");
}

#[test]
fn graphql_exact_output_text() {
    let input = r#"{"query":"{ a }","variables":" {\"x\": [1, 2]} ","operationName":"Op"}"#;
    assert_eq!(
        build_graphql_body(input),
        r#"{"query":"{ a }","variables":{"x":[1,2]},"operationName":"Op"}"#
    );
}

#[test]
fn graphql_missing_optional_members_read_as_empty() {
    assert_eq!(build_graphql_body(r#"{"query":"{ a }"}"#), r#"{"query":"{ a }"}"#);
}

#[test]
fn graphql_blank_members_left_out() {
    let input = "{\"query\":\"q\",\"variables\":\" \\n\\t\",\"operationName\":\"  \"}";
    assert_eq!(build_graphql_body(input), r#"{"query":"q"}"#);
}

#[test]
fn graphql_invalid_variables_left_out() {
    let input = r#"{"query":"q","variables":"{not json","operationName":"Op"}"#;
    assert_eq!(build_graphql_body(input), r#"{"query":"q","operationName":"Op"}"#);
}

#[test]
fn graphql_not_an_envelope_passes_through() {
    for input in [r#"{"variables":""}"#, r#"{"query":1}"#, r#"{"query":"q","variables":null}"#, "[1,2]", ""] {
        assert_eq!(build_graphql_body(input), input);
    }
}

#[test]
fn graphql_query_escaped() {
    let input = r#"{"query":"say \"hi\"\n"}"#;
    assert_eq!(build_graphql_body(input), r#"{"query":"say \"hi\"\n"}"#);
}

#[test]
fn envelope_read_from_members() {
    let members = vec![
        ("operationName".to_string(), Some("Op".to_string())),
        ("query".to_string(), Some("q".to_string())),
        ("extra".to_string(), None),
    ];
    assert_eq!(
        envelope_from_members(&members),
        Some(("q".to_string(), String::new(), "Op".to_string()))
    );
    let bad = vec![("query".to_string(), Some("q".to_string())), ("variables".to_string(), None)];
    assert_eq!(envelope_from_members(&bad), None);
    assert_eq!(envelope_from_members(&Vec::new()), None);
}

#[test]
fn graphql_frame_orders_members() {
    assert_eq!(frame_graphql_body("\"q\"", &None, &None), "{\"query\":\"q\"}");
    assert_eq!(
        frame_graphql_body("\"q\"", &Some("{}".to_string()), &Some("\"O\"".to_string())),
        "{\"query\":\"q\",\"variables\":{},\"operationName\":\"O\"}"
    );
}

#[test]
fn body_encoded_by_type() {
    let content = Some("a=1&b=2".to_string());
    let json = encode_body(BodyType::Json, &content).unwrap();
    assert_eq!((json.content_type.as_str(), json.content.as_str()), ("application/json", "a=1&b=2"));
    let text = encode_body(BodyType::Text, &content).unwrap();
    assert_eq!(text.content_type, "text/plain");
    let form = encode_body(BodyType::FormUrlEncoded, &content).unwrap();
    assert_eq!((form.content_type.as_str(), form.content.as_str()), ("application/x-www-form-urlencoded", "a=1&b=2"));
    assert!(encode_body(BodyType::Multipart, &content).is_none());
    assert!(encode_body(BodyType::NoBody, &content).is_none());
    assert!(encode_body(BodyType::Json, &None).is_none());
    let gql = encode_body(BodyType::GraphQL, &Some(r#"{"query":"q"}"#.to_string())).unwrap();
    assert_eq!((gql.content_type.as_str(), gql.content.as_str()), ("application/json", r#"{"query":"q"}"#));
}

#[test]
fn json_quote_matches_serde_json() {
    let samples = [
        "",
        "plain",
        "say \"hi\"",
        "back\\slash",
        "\u{0}\u{1}\u{8}\t\n\u{b}\u{c}\r\u{1f}",
        "\u{7f} é 日本 \u{2028}",
        "/path/",
    ];
    for s in samples {
        assert_eq!(json_quote(s), serde_json::to_string(s).unwrap());
    }
    assert_eq!(json_quote("a\u{1}"), "\"a\\u0001\"");
}
