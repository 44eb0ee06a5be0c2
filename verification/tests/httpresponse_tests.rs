use httpcore::headers::HeaderMap;
use httpcore::httpresponse::HttpResponse;

#[test]
fn test_response_struct_creation_200() {
    let response_actual = HttpResponse::new("200", None, Some(String::from("xxxx")));
    let response_expected = HttpResponse {
        version: String::from("HTTP/1.1"),
        status_code: String::from("200"),
        status_text: String::from("OK"),
        headers: {
            let mut h = HeaderMap::new();
            h.insert("Content-Type", "text/html");
            Some(h)
        },
        body: Some(String::from("xxxx")),
    };
    assert_eq!(response_actual, response_expected);
}

#[test]
fn test_response_struct_creation_404() {
    let response_actual = HttpResponse::new("404", None, Some(String::from("xxxx")));
    let response_expected = HttpResponse {
        version: String::from("HTTP/1.1"),
        status_code: String::from("404"),
        status_text: String::from("Not Found"),
        headers: {
            let mut h = HeaderMap::new();
            h.insert("Content-Type", "text/html");
            Some(h)
        },
        body: Some(String::from("xxxx")),
    };
    assert_eq!(response_actual, response_expected);
}

#[test]
fn test_http_response_creation() {
    let response_expected = HttpResponse {
        version: String::from("HTTP/1.1"),
        status_code: String::from("404"),
        status_text: String::from("Not Found"),
        headers: {
            let mut h = HeaderMap::new();
            h.insert("Content-Type", "text/html");
            Some(h)
        },
        body: Some(String::from("xxxx")),
    };
    let http_string: String = response_expected.serialize();
    let actual_string =
        "HTTP/1.1 404 Not Found\r\nContent-Type:text/html\r\nContent-Length: 4\r\n\r\nxxxx";
    assert_eq!(http_string, actual_string);
}

#[test]
fn serialize_200_constructed_response_round_trip() {
    let response = HttpResponse::new("200", None, Some(String::from("xxxx")));
    assert_eq!(
        response.serialize(),
        "HTTP/1.1 200 OK\r\nContent-Type:text/html\r\nContent-Length: 4\r\n\r\nxxxx"
    );
}

#[test]
fn serialize_404_constructed_response() {
    let response = HttpResponse::new("404", None, Some(String::from("xxxx")));
    assert_eq!(
        response.serialize(),
        "HTTP/1.1 404 Not Found\r\nContent-Type:text/html\r\nContent-Length: 4\r\n\r\nxxxx"
    );
}

#[test]
fn unknown_status_code_has_empty_status_text() {
    let response = HttpResponse::new("418", None, None);
    assert_eq!(response.status_code(), "418");
    assert_eq!(response.status_text(), "");
    assert_eq!(
        response.serialize(),
        "HTTP/1.1 418 \r\nContent-Type:text/html\r\nContent-Length: 0\r\n\r\n"
    );
}

#[test]
fn known_status_codes_fill_the_table_text() {
    assert_eq!(HttpResponse::new("400", None, None).status_text(), "Bad Request");
    assert_eq!(HttpResponse::new("404", None, None).status_text(), "Not Found");
    assert_eq!(
        HttpResponse::new("500", None, None).status_text(),
        "Internal Server Error"
    );
    assert_eq!(HttpResponse::new("200", None, None).status_text(), "OK");
}

#[test]
fn caller_headers_are_taken_verbatim_not_merged() {
    let mut h = HeaderMap::new();
    h.insert("X-One", "1");
    let response = HttpResponse::new("200", Some(h), None);
    assert_eq!(
        response.serialize(),
        "HTTP/1.1 200 OK\r\nX-One:1\r\nContent-Length: 0\r\n\r\n"
    );
}

#[test]
fn caller_content_length_header_is_not_deduplicated() {
    let mut h = HeaderMap::new();
    h.insert("Content-Length", "999");
    let response = HttpResponse::new("200", Some(h), Some(String::from("ab")));
    let s = response.serialize();
    assert!(s.contains("Content-Length:999\r\n"));
    assert!(s.contains("Content-Length: 2\r\n\r\nab"));
}

#[test]
fn content_length_counts_bytes_not_characters() {
    let body = String::from("h\u{e9}llo");
    assert_eq!(body.len(), 6);
    let response = HttpResponse::new("200", None, Some(body));
    let s = response.serialize();
    let start = s.find("Content-Length: ").expect("length header") + "Content-Length: ".len();
    let end = s.find("\r\n\r\n").expect("blank line");
    let n: usize = s[start..end].parse().expect("a number");
    assert_eq!(n, 6);
}

#[test]
fn content_length_of_empty_body_is_zero() {
    let response = HttpResponse::new("200", None, None);
    let s = response.serialize();
    assert!(s.ends_with("Content-Length: 0\r\n\r\n"));
}

#[test]
fn response_getters_echo_the_parts() {
    let response = HttpResponse::new("404", None, Some(String::from("gone")));
    assert_eq!(response.version(), "HTTP/1.1");
    assert_eq!(response.status_code(), "404");
    assert_eq!(response.status_text(), "Not Found");
    assert_eq!(response.headers(), "Content-Type:text/html\r\n");
    assert_eq!(response.body(), "gone");
}

#[test]
fn response_body_getter_of_none_is_empty() {
    let response = HttpResponse::new("200", None, None);
    assert_eq!(response.body(), "");
}

#[test]
fn send_response_appends_the_wire_form() {
    let response = HttpResponse::new("200", None, Some(String::from("hi")));
    let mut stream = String::from("already-written:");
    let sent = response.send_response(&mut stream);
    assert!(sent.is_ok());
    assert_eq!(
        stream,
        "already-written:HTTP/1.1 200 OK\r\nContent-Type:text/html\r\nContent-Length: 2\r\n\r\nhi"
    );
}
