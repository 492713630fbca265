//! End-to-end and component tests for the HTTP client core: descriptor
//! construction, dispatch preparation, response assembly, and rendering.

use httpie::dispatch::prepare;
use httpie::error::HttpError;
use httpie::kv::{parse_kv_pair, KvPair};
use httpie::render::{render, render_body, render_head};
use httpie::request::{Method, RequestDescriptor};
use httpie::response::ResponseDescriptor;

fn stub_response(
    status_code: u16,
    status_text: &str,
    headers: Vec<(&str, &str)>,
    body: &str,
) -> ResponseDescriptor {
    let headers: Vec<(String, String)> = headers
        .into_iter()
        .map(|(n, v)| (n.to_string(), v.to_string()))
        .collect();
    ResponseDescriptor::assemble(
        "HTTP/1.1".to_string(),
        status_code,
        status_text.to_string(),
        headers,
        &body.as_bytes().to_vec(),
    )
    .expect("stub body is valid UTF-8")
}

#[test]
fn url_validation_accepts_absolute_and_round_trips() {
    let input = "https://example.test/status/200";
    let d = RequestDescriptor::get(input).expect("absolute URL accepted");
    assert_eq!(input, d.url);
}

#[test]
fn url_validation_rejects_scheme_less_input() {
    for bad in ["example.test/x", "no scheme here", "/relative/path", ""] {
        match RequestDescriptor::get(bad) {
            Err(HttpError::InvalidUrl { input }) => assert_eq!(bad, input),
            other => panic!("expected InvalidUrl for {bad:?}, got {other:?}"),
        }
    }
}

#[test]
fn url_validation_rejects_host_less_input() {
    match RequestDescriptor::get("mailto:nobody") {
        Err(HttpError::InvalidUrl { .. }) => {}
        other => panic!("expected InvalidUrl for host-less URL, got {other:?}"),
    }
}

#[test]
fn kv_parsing_splits_on_first_equals_only() {
    let p = parse_kv_pair("a=b=c").expect("token with = parses");
    assert_eq!("a", p.k);
    assert_eq!("b=c", p.v);
}

#[test]
fn kv_parsing_allows_empty_value() {
    let p = parse_kv_pair("k=").expect("empty value is fine");
    assert_eq!("k", p.k);
    assert_eq!("", p.v);
}

#[test]
fn url_with_colon_but_no_host_is_still_rejected() {
    assert!(matches!(
        RequestDescriptor::get("http://"),
        Err(HttpError::InvalidUrl { .. })
    ));
}

#[test]
fn kv_parsing_rejects_missing_equals_and_empty_key() {
    for bad in ["novalue", "=v"] {
        match parse_kv_pair(bad) {
            Err(HttpError::InvalidKeyValuePair { input }) => assert_eq!(bad, input),
            other => panic!("expected InvalidKeyValuePair for {bad:?}, got {other:?}"),
        }
    }
}

#[test]
fn get_descriptor_carries_empty_body() {
    let d = RequestDescriptor::get("https://example.test/").unwrap();
    assert!(matches!(d.method, Method::Get));
    assert!(d.body.is_empty());
}

#[test]
fn post_descriptor_body_equals_pairs_in_order() {
    let raw = vec!["a=1".to_string(), "b=two".to_string(), "a=3".to_string()];
    let d = RequestDescriptor::post("https://example.test/echo", &raw).unwrap();
    assert!(matches!(d.method, Method::Post));
    let expected = vec![
        KvPair { k: "a".to_string(), v: "1".to_string() },
        KvPair { k: "b".to_string(), v: "two".to_string() },
        KvPair { k: "a".to_string(), v: "3".to_string() },
    ];
    assert_eq!(expected, d.body);
}

#[test]
fn post_descriptor_rejects_bad_pair_before_any_dispatch() {
    let raw = vec!["bad".to_string()];
    match RequestDescriptor::post("https://example.test/x", &raw) {
        Err(e) => {
            let msg = e.message();
            assert!(msg.contains("InvalidKeyValuePair"));
            assert!(msg.contains("bad"));
        }
        Ok(_) => panic!("malformed pair must fail construction"),
    }
}

#[test]
fn prepare_get_has_no_body() {
    let d = RequestDescriptor::get("https://example.test/").unwrap();
    let out = prepare(&d);
    assert!(matches!(out.method, Method::Get));
    assert_eq!("https://example.test/", out.url);
    assert!(out.body_json.is_none());
}

#[test]
fn prepare_post_serializes_json_object_in_order() {
    let raw = vec!["a=1".to_string(), "b=two".to_string()];
    let d = RequestDescriptor::post("https://example.test/echo", &raw).unwrap();
    let out = prepare(&d);
    assert_eq!(Some("{\"a\":\"1\",\"b\":\"two\"}".to_string()), out.body_json);
}

#[test]
fn prepare_post_duplicate_key_keeps_position_takes_last_value() {
    let raw = vec!["a=1".to_string(), "b=2".to_string(), "a=3".to_string()];
    let d = RequestDescriptor::post("https://example.test/echo", &raw).unwrap();
    let out = prepare(&d);
    assert_eq!(Some("{\"a\":\"3\",\"b\":\"2\"}".to_string()), out.body_json);
}

#[test]
fn prepare_post_empty_body_sends_empty_object() {
    let d = RequestDescriptor::post("https://example.test/echo", &vec![]).unwrap();
    let out = prepare(&d);
    assert_eq!(Some("{}".to_string()), out.body_json);
}

#[test]
fn json_escaping_handles_quotes_backslashes_and_controls() {
    let raw = vec!["k=a\"b\\c\nd\te\rf\u{1}g".to_string()];
    let d = RequestDescriptor::post("https://example.test/echo", &raw).unwrap();
    let out = prepare(&d);
    assert_eq!(
        Some("{\"k\":\"a\\\"b\\\\c\\nd\\te\\rf\\u0001g\"}".to_string()),
        out.body_json
    );
}

#[test]
fn dispatch_is_status_agnostic_404_is_a_response_not_an_error() {
    let resp = stub_response(
        404,
        "Not Found",
        vec![("Content-Type", "application/json")],
        "{\"error\":\"missing\"}",
    );
    assert_eq!(404, resp.status_code);
    // The body goes through the JSON (highlighting) path: the output is
    // terminal-escaped rather than the raw text.
    let body = render_body(&resp);
    assert!(body.contains('\u{1b}'));
    assert!(body.contains("error"));
}

#[test]
fn assemble_rejects_undecodable_body() {
    let bytes: Vec<u8> = vec![0xff, 0xfe, 0x48];
    match ResponseDescriptor::assemble(
        "HTTP/1.1".to_string(),
        200,
        "OK".to_string(),
        vec![],
        &bytes,
    ) {
        Err(e) => assert!(e.message().contains("UndecodableBody")),
        Ok(_) => panic!("invalid UTF-8 must be rejected"),
    }
}

#[test]
fn content_type_with_parameters_routes_to_json() {
    let resp = stub_response(
        200,
        "OK",
        vec![("Content-Type", "application/json; charset=utf-8")],
        "{}",
    );
    assert!(render_body(&resp).contains('\u{1b}'));
}

#[test]
fn content_type_html_routes_to_highlighting() {
    let resp = stub_response(200, "OK", vec![("Content-Type", "text/html")], "<p>hi</p>");
    assert!(render_body(&resp).contains('\u{1b}'));
}

#[test]
fn content_type_plain_or_missing_renders_verbatim() {
    let plain = stub_response(200, "OK", vec![("Content-Type", "text/plain")], "hi there");
    assert_eq!("hi there\n", render_body(&plain));
    let missing = stub_response(200, "OK", vec![], "hi there");
    assert_eq!("hi there\n", render_body(&missing));
}

#[test]
fn content_type_header_name_is_case_insensitive() {
    let resp = stub_response(200, "OK", vec![("CONTENT-TYPE", "application/json")], "{}");
    assert!(render_body(&resp).contains('\u{1b}'));
}

#[test]
fn rendering_is_idempotent() {
    let resp = stub_response(
        200,
        "OK",
        vec![("Content-Type", "application/json")],
        "{\"a\":1}",
    );
    assert_eq!(render(&resp), render(&resp));
    let plain = stub_response(204, "No Content", vec![("X-One", "1"), ("X-Two", "2")], "");
    assert_eq!(render(&plain), render(&plain));
}

#[test]
fn end_to_end_get_plain_text() {
    let d = RequestDescriptor::get("https://example.test/status/200").unwrap();
    let out = prepare(&d);
    assert!(matches!(out.method, Method::Get));
    // Stubbed exchange: the responder answers 200 OK, text/plain, "hello".
    let resp = stub_response(200, "OK", vec![("Content-Type", "text/plain")], "hello");
    let output = render(&resp);
    assert_eq!("HTTP/1.1 200 OK\n\nContent-Type: text/plain\n\nhello\n", output);
}

#[test]
fn end_to_end_post_echoed_json() {
    let raw = vec!["a=1".to_string(), "b=two".to_string()];
    let d = RequestDescriptor::post("https://example.test/echo", &raw).unwrap();
    let out = prepare(&d);
    let sent = out.body_json.expect("POST carries a JSON body");
    assert_eq!("{\"a\":\"1\",\"b\":\"two\"}", sent);
    // Stubbed exchange: the responder echoes the JSON body back.
    let resp = stub_response(200, "OK", vec![("Content-Type", "application/json")], &sent);
    let output = render(&resp);
    assert!(output.starts_with("HTTP/1.1 200 OK\n\nContent-Type: application/json\n\n"));
    assert!(output.contains('\u{1b}'));
    assert!(output.contains('a'));
    assert!(output.contains('b'));
}

#[test]
fn render_head_lists_headers_in_arrival_order() {
    let resp = stub_response(
        301,
        "Moved Permanently",
        vec![("Location", "https://example.test/new"), ("X-Extra", "x"), ("X-Extra", "y")],
        "",
    );
    assert_eq!(
        "HTTP/1.1 301 Moved Permanently\n\nLocation: https://example.test/new\nX-Extra: x\nX-Extra: y\n\n",
        render_head(&resp)
    );
}

#[test]
fn error_messages_are_stable_and_name_their_kind() {
    let e1 = HttpError::InvalidUrl { input: "x".to_string() };
    assert_eq!("InvalidUrl: x", e1.message());
    let e2 = HttpError::InvalidKeyValuePair { input: "bad".to_string() };
    assert_eq!("InvalidKeyValuePair: bad", e2.message());
    let e3 = HttpError::TransportError { cause: "connection refused".to_string() };
    assert_eq!("TransportError: connection refused", e3.message());
    let e4 = HttpError::UndecodableBody;
    assert_eq!("UndecodableBody: response body is not valid UTF-8", e4.message());
}
