use ruquest::executor::{
    body_payload, display_body, invalid_method_response, parse_method, prepare_request,
    status_color, supported_methods, transport_error_response, HttpMethod, RequestBody,
    StatusColor,
};
use ruquest::headers::outgoing_headers;
use ruquest::model::ApiRequest;

fn s(x: &str) -> String {
    x.to_string()
}

fn pair(k: &str, v: &str) -> (String, String) {
    (s(k), s(v))
}

#[test]
fn each_method_token_selects_its_method() {
    assert_eq!(parse_method(&s("GET")), Some(HttpMethod::Get));
    assert_eq!(parse_method(&s("POST")), Some(HttpMethod::Post));
    assert_eq!(parse_method(&s("PUT")), Some(HttpMethod::Put));
    assert_eq!(parse_method(&s("DELETE")), Some(HttpMethod::Delete));
    assert_eq!(parse_method(&s("PATCH")), Some(HttpMethod::Patch));
}

#[test]
fn other_method_strings_are_rejected() {
    assert_eq!(parse_method(&s("FOO")), None);
    assert_eq!(parse_method(&s("get")), None);
    assert_eq!(parse_method(&s("")), None);
    assert_eq!(parse_method(&s("GET ")), None);
}

#[test]
fn method_tokens_round_trip() {
    for m in [HttpMethod::Get, HttpMethod::Post, HttpMethod::Put, HttpMethod::Delete, HttpMethod::Patch] {
        assert_eq!(parse_method(&m.as_token()), Some(m));
    }
    let all = supported_methods();
    assert_eq!(all, vec![s("GET"), s("POST"), s("PUT"), s("DELETE"), s("PATCH")]);
}

#[test]
fn invalid_method_gives_local_status_zero_response() {
    let mut req = ApiRequest::new();
    req.method = s("FOO");
    req.url = s("https://example.com");
    match prepare_request(&req) {
        Err(resp) => {
            assert_eq!(resp.status, 0);
            assert!(resp.headers.is_empty());
            assert_eq!(resp.body, "Error: Invalid HTTP method 'FOO'");
            assert!(resp.body.contains("Invalid HTTP method"));
            assert_eq!(resp.time_taken_ms, 0);
        }
        Ok(_) => panic!("an invalid method must not become a call"),
    }
    let direct = invalid_method_response(&s("TRACE"));
    assert_eq!(direct.body, "Error: Invalid HTTP method 'TRACE'");
}

#[test]
fn valid_method_prepares_the_call() {
    let mut req = ApiRequest::new();
    req.method = s("POST");
    req.url = s("https://example.com/items");
    req.headers = vec![pair("Accept", "text/plain")];
    req.body = s("{\"a\":1}");
    match prepare_request(&req) {
        Ok(p) => {
            assert_eq!(p.method, HttpMethod::Post);
            assert_eq!(p.url, "https://example.com/items");
            assert_eq!(p.headers, vec![pair("content-type", "application/json"), pair("accept", "text/plain")]);
            assert!(matches!(p.body, RequestBody::Json(_)));
        }
        Err(_) => panic!("POST is supported"),
    }
}

#[test]
fn headers_start_with_json_content_type() {
    let out = outgoing_headers(&vec![]);
    assert_eq!(out, vec![pair("content-type", "application/json")]);
}

#[test]
fn empty_keys_and_values_are_skipped() {
    let out = outgoing_headers(&vec![pair("", "x"), pair("X-Empty", ""), pair("", ""), pair("X-One", "1")]);
    assert_eq!(out, vec![pair("content-type", "application/json"), pair("x-one", "1")]);
}

#[test]
fn unencodable_headers_are_skipped_without_stopping() {
    let out = outgoing_headers(&vec![
        pair("Bad Name", "v"),
        pair("X-Token", "abc"),
        pair("Ünicode", "v"),
        pair("Good", "bad\u{7f}value"),
        pair("Good", "line\nbreak"),
        pair("X-Tab", "a\tb"),
    ]);
    assert_eq!(
        out,
        vec![pair("content-type", "application/json"), pair("x-token", "abc"), pair("x-tab", "a\tb")]
    );
}

#[test]
fn header_names_are_lowered() {
    let out = outgoing_headers(&vec![pair("Content-Type", "text/plain"), pair("X-API-Key", "K")]);
    assert_eq!(
        out,
        vec![
            pair("content-type", "application/json"),
            pair("content-type", "text/plain"),
            pair("x-api-key", "K"),
        ]
    );
}

#[test]
fn json_body_is_sent_as_json() {
    match body_payload(&s("{\"a\":1}")) {
        RequestBody::Json(v) => assert_eq!(serde_json::to_string(&v).unwrap(), "{\"a\":1}"),
        _ => panic!("a JSON body must be sent as JSON"),
    }
}

#[test]
fn other_body_is_sent_as_text() {
    match body_payload(&s("not json")) {
        RequestBody::Text(t) => assert_eq!(t, "not json"),
        _ => panic!("a non-JSON body must be sent as text"),
    }
}

#[test]
fn empty_body_is_not_sent() {
    assert!(matches!(body_payload(&s("")), RequestBody::Empty));
}

#[test]
fn transport_failure_response() {
    let r = transport_error_response(&s("connection refused"), 12);
    assert_eq!(r.status, 0);
    assert!(r.headers.is_empty());
    assert_eq!(r.body, "Error: connection refused");
    assert_eq!(r.time_taken_ms, 12);
}

#[test]
fn status_colors() {
    assert_eq!(status_color(0), StatusColor::Green);
    assert_eq!(status_color(200), StatusColor::Green);
    assert_eq!(status_color(299), StatusColor::Green);
    assert_eq!(status_color(300), StatusColor::Yellow);
    assert_eq!(status_color(399), StatusColor::Yellow);
    assert_eq!(status_color(400), StatusColor::Red);
    assert_eq!(status_color(503), StatusColor::Red);
}

#[test]
fn response_body_display() {
    assert_eq!(display_body(&s("{\"a\":1}")), "{\n  \"a\": 1\n}");
    assert_eq!(display_body(&s("plain text")), "plain text");
    assert_eq!(display_body(&s("")), "");
}
