use httpcore::httprequest::{HttpMethod, HttpRequest, Version};

#[test]
fn parse_full_get_request() {
    let req = HttpRequest::parse("GET /greeting HTTP/1.1\r\nHost: localhost:3000\r\nAccept: */*\r\n\r\n");
    assert_eq!(req.method, HttpMethod::Get);
    assert_eq!(req.resource.path, "/greeting");
    assert_eq!(req.version, Version::V1_1);
    assert_eq!(req.headers.len(), 2);
    assert_eq!(req.headers.get("Host"), Some("localhost:3000"));
    assert_eq!(req.headers.get("Accept"), Some("*/*"));
    assert_eq!(req.msg_body, "");
}

#[test]
fn parse_post_request_with_body() {
    let req = HttpRequest::parse("POST /submit HTTP/1.1\r\nContent-Length: 5\r\n\r\nhello");
    assert_eq!(req.method, HttpMethod::Post);
    assert_eq!(req.resource.path, "/submit");
    assert_eq!(req.msg_body, "hello");
}

#[test]
fn first_token_get_parses_to_get() {
    let req = HttpRequest::parse("GET / HTTP/1.1\r\n\r\n");
    assert_eq!(req.method, HttpMethod::Get);
}

#[test]
fn first_token_other_than_the_two_verbs_is_uninitialized() {
    let req = HttpRequest::parse("PUT /thing HTTP/1.1\r\n\r\n");
    assert_eq!(req.method, HttpMethod::Uninitialized);
    let req = HttpRequest::parse("get /thing HTTP/1.1\r\n\r\n");
    assert_eq!(req.method, HttpMethod::Uninitialized);
}

#[test]
fn body_is_exactly_what_follows_the_first_blank_line() {
    let req = HttpRequest::parse("GET / HTTP/1.1\r\nA: b\r\n\r\nline1\r\nline2");
    assert_eq!(req.msg_body, "line1\r\nline2");
}

#[test]
fn buffer_without_blank_line_yields_empty_body() {
    let req = HttpRequest::parse("GET / HTTP/1.1\r\nHost: x");
    assert_eq!(req.msg_body, "");
    assert_eq!(req.headers.get("Host"), Some("x"));
}

#[test]
fn trailing_zero_padding_is_trimmed() {
    let req = HttpRequest::parse("GET / HTTP/1.1\r\n\r\nbody\0\0\0\0");
    assert_eq!(req.msg_body, "body");
}

#[test]
fn header_line_without_colon_is_skipped() {
    let req = HttpRequest::parse("GET / HTTP/1.1\r\nBadLine\r\nGood: v\r\n\r\n");
    assert_eq!(req.headers.len(), 1);
    assert_eq!(req.headers.get("Good"), Some("v"));
    assert_eq!(req.headers.get("BadLine"), None);
}

#[test]
fn header_value_is_trimmed() {
    let req = HttpRequest::parse("GET / HTTP/1.1\r\nK:   spaced value \t\r\n\r\n");
    assert_eq!(req.headers.get("K"), Some("spaced value"));
}

#[test]
fn later_duplicate_header_replaces_the_earlier() {
    let req = HttpRequest::parse("GET / HTTP/1.1\r\nK: a\r\nK: b\r\n\r\n");
    assert_eq!(req.headers.len(), 1);
    assert_eq!(req.headers.get("K"), Some("b"));
}

#[test]
fn missing_tokens_degrade_to_defaults() {
    let req = HttpRequest::parse("GET\r\n\r\n");
    assert_eq!(req.method, HttpMethod::Get);
    assert_eq!(req.resource.path, "");
    assert_eq!(req.version, Version::Uninitialized);
}

#[test]
fn empty_buffer_parses_to_all_defaults() {
    let req = HttpRequest::parse("");
    assert_eq!(req.method, HttpMethod::Uninitialized);
    assert_eq!(req.resource.path, "");
    assert_eq!(req.version, Version::Uninitialized);
    assert_eq!(req.headers.len(), 0);
    assert_eq!(req.msg_body, "");
}

#[test]
fn version_tokens_parse_to_their_variants() {
    assert_eq!(HttpRequest::parse("GET / HTTP/1.1\r\n\r\n").version, Version::V1_1);
    assert_eq!(HttpRequest::parse("GET / HTTP/2.0\r\n\r\n").version, Version::V2_0);
    assert_eq!(
        HttpRequest::parse("GET / HTTP/9.9\r\n\r\n").version,
        Version::Uninitialized
    );
}

#[test]
fn query_string_stays_part_of_the_path() {
    let req = HttpRequest::parse("GET /page?x=1&y=2 HTTP/1.1\r\n\r\n");
    assert_eq!(req.resource.path, "/page?x=1&y=2");
}
