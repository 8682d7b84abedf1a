use steq::encoding::urlencoding_encode;
use steq::query::{append_query, push_query_pair};
use steq::request::KeyValue;

fn kv(key: &str, value: &str, enabled: bool) -> KeyValue {
    KeyValue { key: key.to_string(), value: value.to_string(), enabled }
}

#[test]
fn encode_no_special_chars() {
    assert_eq!(urlencoding_encode("hello"), "hello");
    assert_eq!(urlencoding_encode("ABCxyz0123456789"), "ABCxyz0123456789");
    assert_eq!(urlencoding_encode("a-b_c.d~e"), "a-b_c.d~e");
}

#[test]
fn encode_spaces() {
    assert_eq!(urlencoding_encode("hello world"), "hello%20world");
    assert_eq!(urlencoding_encode(" "), "%20");
}

#[test]
fn encode_special_chars() {
    assert_eq!(urlencoding_encode("a&b=c"), "a%26b%3Dc");
    assert_eq!(urlencoding_encode("foo@bar"), "foo%40bar");
    assert_eq!(urlencoding_encode("100%"), "100%25");
    assert_eq!(urlencoding_encode("a+b"), "a%2Bb");
}

#[test]
fn encode_unicode() {
    assert_eq!(urlencoding_encode("café"), "caf%C3%A9");
    let encoded = urlencoding_encode("日本");
    assert!(encoded.contains("%"));
    assert!(!encoded.contains("日"));
}

#[test]
fn encode_multibyte_exact_bytes() {
    assert_eq!(urlencoding_encode("日本"), "%E6%97%A5%E6%9C%AC");
    assert_eq!(urlencoding_encode(""), "");
    assert_eq!(urlencoding_encode("/?#[]"), "%2F%3F%23%5B%5D");
    assert_eq!(urlencoding_encode("\u{7f}\u{0}"), "%7F%00");
}

#[test]
fn query_appended_with_question_mark_in_order() {
    let params = vec![kv("page", "1", true), kv("sort", "asc", true)];
    assert_eq!(
        append_query("https://api.example.com/users", &params),
        "https://api.example.com/users?page=1&sort=asc"
    );
}

#[test]
fn query_disabled_param_omitted() {
    let params = vec![kv("page", "1", true), kv("debug", "yes", false), kv("sort", "asc", true)];
    assert_eq!(append_query("https://a.com/x", &params), "https://a.com/x?page=1&sort=asc");
}

#[test]
fn query_joined_with_ampersand_after_existing_query() {
    let params = vec![kv("page", "2", true)];
    assert_eq!(append_query("https://a.com/x?x=1", &params), "https://a.com/x?x=1&page=2");
}

#[test]
fn query_without_enabled_params_leaves_url() {
    let params = vec![kv("page", "2", false)];
    assert_eq!(append_query("https://a.com/x", &params), "https://a.com/x");
    assert_eq!(append_query("https://a.com/x", &Vec::new()), "https://a.com/x");
}

#[test]
fn query_keys_and_values_encoded() {
    let params = vec![kv("q w", "a&b=c", true), kv("k", "café", true)];
    assert_eq!(append_query("http://h/p", &params), "http://h/p?q%20w=a%26b%3Dc&k=caf%C3%A9");
}

#[test]
fn query_duplicate_keys_kept() {
    let params = vec![kv("tag", "a", true), kv("tag", "b", true)];
    assert_eq!(append_query("http://h/p", &params), "http://h/p?tag=a&tag=b");
}

#[test]
fn single_pair_pushed_in_place() {
    let mut url = "http://h/p".to_string();
    push_query_pair(&mut url, "k", "v 1");
    assert_eq!(url, "http://h/p?k=v%201");
    push_query_pair(&mut url, "x", "y");
    assert_eq!(url, "http://h/p?k=v%201&x=y");
}
