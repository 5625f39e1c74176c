use webclient::dispatch::{classify_reply, is_success, present_json, Body, Method, Reply, Report, RequestIntent, UsageError};
use webclient::form::parse_form_pairs;
use webclient::json::{form_body, key_le_exec, sort_json_keys, Json};
use webclient::url_check::{has_data_scheme, judge_url, validate_url, UrlError, UrlParseFailure};

fn sorted_pairs(mut v: Vec<(String, String)>) -> Vec<(String, String)> {
    v.sort();
    v
}

fn pairs(items: &[(&str, &str)]) -> Vec<(String, String)> {
    items.iter().map(|(k, v)| (k.to_string(), v.to_string())).collect()
}

fn num(s: &str) -> Json {
    Json::Number(s.to_string())
}

fn object_keys(v: &Json) -> Vec<String> {
    match v {
        Json::Object(e) => e.iter().map(|(k, _)| k.clone()).collect(),
        _ => panic!("not an object"),
    }
}

#[test]
fn data_scheme_is_refused() {
    assert_eq!(validate_url("data://example.com"), Err(UrlError::NoBaseProtocol));
    assert_eq!(validate_url("data://"), Err(UrlError::NoBaseProtocol));
    assert_eq!(validate_url("data://text/plain,hello"), Err(UrlError::NoBaseProtocol));
    assert_eq!(
        UrlError::NoBaseProtocol.diagnostic(),
        Some("Error: The URL does not have a valid base protocol.")
    );
}

#[test]
fn absolute_urls_are_accepted() {
    assert_eq!(validate_url("https://example.com/path"), Ok(()));
    assert_eq!(validate_url("http://localhost:8080/api?q=1"), Ok(()));
    assert_eq!(validate_url("http://127.0.0.1/"), Ok(()));
}

#[test]
fn relative_url_has_no_base_protocol() {
    assert_eq!(validate_url("example.com/path"), Err(UrlError::NoBaseProtocol));
    assert_eq!(validate_url(""), Err(UrlError::NoBaseProtocol));
}

#[test]
fn bad_hosts_and_ports_are_told_apart() {
    assert_eq!(validate_url("http://[::1"), Err(UrlError::InvalidIpv6Address));
    assert_eq!(validate_url("http://256.256.256.256/"), Err(UrlError::InvalidIpv4Address));
    assert_eq!(validate_url("http://example.com:99999/"), Err(UrlError::InvalidPort));
    assert_eq!(validate_url("http://example.com:port/"), Err(UrlError::InvalidPort));
}

#[test]
fn other_failures_have_no_diagnostic() {
    assert_eq!(validate_url("http://"), Err(UrlError::Unrecognized));
    assert_eq!(UrlError::Unrecognized.diagnostic(), None);
    assert_eq!(
        UrlError::InvalidPort.diagnostic(),
        Some("Error: The URL contains an invalid port number.")
    );
    assert_eq!(
        UrlError::InvalidIpv6Address.diagnostic(),
        Some("Error: The URL contains an invalid IPv6 address.")
    );
    assert_eq!(
        UrlError::InvalidIpv4Address.diagnostic(),
        Some("Error: The URL contains an invalid IPv4 address.")
    );
}

#[test]
fn verdict_follows_parser_outcome() {
    assert_eq!(judge_url("https://a.b", Ok(())), Ok(()));
    assert_eq!(judge_url("data://a", Ok(())), Err(UrlError::NoBaseProtocol));
    assert_eq!(
        judge_url("x", Err(UrlParseFailure::RelativeUrlWithoutBase)),
        Err(UrlError::NoBaseProtocol)
    );
    assert_eq!(judge_url("x", Err(UrlParseFailure::InvalidPort)), Err(UrlError::InvalidPort));
    assert_eq!(
        judge_url("x", Err(UrlParseFailure::InvalidIpv4Address)),
        Err(UrlError::InvalidIpv4Address)
    );
    assert_eq!(
        judge_url("x", Err(UrlParseFailure::InvalidIpv6Address)),
        Err(UrlError::InvalidIpv6Address)
    );
    assert_eq!(judge_url("x", Err(UrlParseFailure::Other)), Err(UrlError::Unrecognized));
}

#[test]
fn data_prefix_detection() {
    assert!(has_data_scheme("data://x"));
    assert!(has_data_scheme("data://"));
    assert!(!has_data_scheme("data:/"));
    assert!(!has_data_scheme("data:text"));
    assert!(!has_data_scheme("https://data://"));
    assert!(!has_data_scheme(""));
}

#[test]
fn form_pairs_two_keys_in_either_order() {
    let expected = pairs(&[("a", "1"), ("b", "2")]);
    assert_eq!(sorted_pairs(parse_form_pairs("a=1&b=2")), expected);
    assert_eq!(sorted_pairs(parse_form_pairs("b=2&a=1")), expected);
}

#[test]
fn form_pairs_drop_segments_without_equals() {
    assert_eq!(
        sorted_pairs(parse_form_pairs("a=1&malformed&b=2")),
        pairs(&[("a", "1"), ("b", "2")])
    );
}

#[test]
fn form_pairs_later_key_wins() {
    assert_eq!(parse_form_pairs("a=1&a=3"), pairs(&[("a", "3")]));
    assert_eq!(
        sorted_pairs(parse_form_pairs("a=1&b=2&a=3")),
        pairs(&[("a", "3"), ("b", "2")])
    );
}

#[test]
fn form_pairs_split_at_first_equals() {
    assert_eq!(parse_form_pairs("k=v=w"), pairs(&[("k", "v=w")]));
    assert_eq!(parse_form_pairs("=x"), pairs(&[("", "x")]));
    assert_eq!(parse_form_pairs("k="), pairs(&[("k", "")]));
}

#[test]
fn form_pairs_empty_input() {
    assert_eq!(parse_form_pairs(""), pairs(&[]));
    assert_eq!(parse_form_pairs("&&"), pairs(&[]));
    assert_eq!(parse_form_pairs("novalue"), pairs(&[]));
}

#[test]
fn form_body_is_object_of_strings_then_sorted() {
    let body = form_body("b=2&a=1");
    let sorted = sort_json_keys(body).unwrap();
    match &sorted {
        Json::Object(e) => {
            assert_eq!(e.len(), 2);
            assert_eq!(e[0].0, "a");
            assert!(matches!(&e[0].1, Json::Str(s) if s == "1"));
            assert_eq!(e[1].0, "b");
            assert!(matches!(&e[1].1, Json::Str(s) if s == "2"));
        }
        _ => panic!("not an object"),
    }
}

#[test]
fn sorting_orders_top_level_keys() {
    let v = Json::Object(vec![("b".to_string(), num("2")), ("a".to_string(), num("1"))]);
    let sorted = sort_json_keys(v).unwrap();
    assert_eq!(object_keys(&sorted), vec!["a".to_string(), "b".to_string()]);
}

#[test]
fn sorting_keeps_nested_objects_as_they_are() {
    let inner = Json::Object(vec![("z".to_string(), Json::Null), ("y".to_string(), Json::Bool(true))]);
    let v = Json::Object(vec![
        ("zeta".to_string(), inner),
        ("alpha".to_string(), Json::Array(vec![num("1")])),
        ("Beta".to_string(), Json::Str("x".to_string())),
    ]);
    let sorted = sort_json_keys(v).unwrap();
    assert_eq!(
        object_keys(&sorted),
        vec!["Beta".to_string(), "alpha".to_string(), "zeta".to_string()]
    );
    match &sorted {
        Json::Object(e) => assert_eq!(object_keys(&e[2].1), vec!["z".to_string(), "y".to_string()]),
        _ => panic!("not an object"),
    }
}

#[test]
fn sorting_refuses_non_objects() {
    assert!(sort_json_keys(Json::Array(vec![num("1")])).is_none());
    assert!(sort_json_keys(Json::Null).is_none());
    assert!(sort_json_keys(num("3")).is_none());
    assert!(matches!(sort_json_keys(Json::Object(vec![])), Some(Json::Object(e)) if e.is_empty()));
}

#[test]
fn key_order_by_code_point() {
    assert!(key_le_exec("a", "b"));
    assert!(!key_le_exec("b", "a"));
    assert!(key_le_exec("a", "ab"));
    assert!(!key_le_exec("ab", "a"));
    assert!(key_le_exec("", ""));
    assert!(key_le_exec("Z", "a"));
    assert!(key_le_exec("same", "same"));
}

#[test]
fn options_select_get() {
    let r = RequestIntent::from_args("http://x".to_string(), None, None, None).unwrap();
    assert_eq!(r.method, Method::Get);
    assert!(matches!(r.body, Body::Empty));
    assert_eq!(r.url, "http://x");
}

#[test]
fn options_select_form_post() {
    let r = RequestIntent::from_args("http://x".to_string(), Some("GET".to_string()), Some("a=1".to_string()), None)
        .unwrap();
    assert_eq!(r.method, Method::Post);
    assert!(matches!(&r.body, Body::Form(d) if d == "a=1"));
}

#[test]
fn options_form_post_needs_data() {
    let r = RequestIntent::from_args("http://x".to_string(), Some("POST".to_string()), None, None);
    assert_eq!(r.unwrap_err(), UsageError::MissingData);
}

#[test]
fn options_json_overrides_form() {
    let r = RequestIntent::from_args(
        "http://x".to_string(),
        Some("POST".to_string()),
        Some("a=1".to_string()),
        Some("{\"k\":1}".to_string()),
    )
    .unwrap();
    assert_eq!(r.method, Method::Post);
    assert!(matches!(&r.body, Body::RawJson(j) if j == "{\"k\":1}"));
}

#[test]
fn unreachable_host_reports_connection_failure() {
    let r = classify_reply(Method::Get, Reply::Unreachable);
    assert!(matches!(r, Report::ConnectFailed));
    assert_eq!(
        r.heading(),
        Some("Error: Unable to connect to the server. Perhaps the network is offline or the server hostname cannot be resolved.")
    );
    assert!(matches!(classify_reply(Method::Post, Reply::Unreachable), Report::ConnectFailed));
}

#[test]
fn failing_status_is_reported() {
    let r = classify_reply(Method::Get, Reply::Received { status: 404, body: Some("nope".to_string()) });
    assert!(matches!(r, Report::StatusFailed(404)));
    assert_eq!(r.heading(), None);
    assert!(matches!(
        classify_reply(Method::Post, Reply::Received { status: 300, body: None }),
        Report::StatusFailed(300)
    ));
    assert!(matches!(
        classify_reply(Method::Get, Reply::Received { status: 199, body: None }),
        Report::StatusFailed(199)
    ));
}

#[test]
fn success_status_range() {
    assert!(is_success(200));
    assert!(is_success(204));
    assert!(is_success(299));
    assert!(!is_success(199));
    assert!(!is_success(300));
    assert!(!is_success(500));
}

#[test]
fn successful_get_shows_text() {
    let r = classify_reply(Method::Get, Reply::Received { status: 200, body: Some("{\"b\":2}".to_string()) });
    assert!(matches!(&r, Report::RawBody(t) if t == "{\"b\":2}"));
    assert_eq!(r.heading(), Some("Response body:"));
    assert!(matches!(
        classify_reply(Method::Get, Reply::Received { status: 200, body: None }),
        Report::Unreadable
    ));
}

#[test]
fn successful_post_tries_json() {
    let r = classify_reply(Method::Post, Reply::Received { status: 201, body: Some("{}".to_string()) });
    assert!(matches!(&r, Report::TryJson(t) if t == "{}"));
}

#[test]
fn json_reply_object_is_sorted() {
    let parsed = Json::Object(vec![("b".to_string(), num("2")), ("a".to_string(), num("1"))]);
    let r = present_json("{\"b\":2,\"a\":1}".to_string(), Some(parsed));
    assert_eq!(r.heading(), Some("Response body (JSON with sorted keys):"));
    match r {
        Report::SortedJson(v) => assert_eq!(object_keys(&v), vec!["a".to_string(), "b".to_string()]),
        _ => panic!("expected a sorted object"),
    }
}

#[test]
fn json_reply_other_shows_text() {
    let r = present_json("[1,2]".to_string(), Some(Json::Array(vec![num("1"), num("2")])));
    assert!(matches!(&r, Report::RawBody(t) if t == "[1,2]"));
    let r = present_json("plain".to_string(), None);
    assert!(matches!(&r, Report::RawBody(t) if t == "plain"));
}
