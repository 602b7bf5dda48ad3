use warv::codec::parse_request;
use warv::error::Error;
use warv::http::{Method, Version};

#[test]
fn parses_a_full_request() {
    let req = parse_request(
        b"POST /items/7?verbose=1 HTTP/1.1\r\nHost: example.org\r\nContent-Type: text/plain\r\n\r\nhello",
    )
    .unwrap();
    assert_eq!(*req.method(), Method::POST);
    assert_eq!(*req.version(), Version::HTTP1_1);
    assert_eq!(req.uri().path(), "/items/7");
    assert_eq!(req.uri().query("verbose"), Some("1".to_string()));
    assert!(req.uri().pattern_params.is_none());
    assert_eq!(req.headers().len(), 2);
    assert_eq!(req.headers().get("Host"), Some(&"example.org".to_string()));
    assert_eq!(req.headers().get("Content-Type"), Some(&"text/plain".to_string()));
    assert_eq!(req.body, b"hello".to_vec());
}

#[test]
fn parses_a_request_without_headers_and_body() {
    let req = parse_request(b"GET / HTTP/1.1\r\n\r\n").unwrap();
    assert_eq!(*req.method(), Method::GET);
    assert_eq!(req.uri().path(), "/");
    assert!(req.uri().query.is_none());
    assert_eq!(req.headers().len(), 0);
    assert!(req.body.is_empty());
}

#[test]
fn every_method_parses() {
    for (name, method) in [
        ("GET", Method::GET),
        ("POST", Method::POST),
        ("PUT", Method::PUT),
        ("OPTIONS", Method::OPTIONS),
        ("DELETE", Method::DELETE),
        ("TRACE", Method::TRACE),
    ] {
        let text = format!("{} /x HTTP/1.1\r\n\r\n", name);
        assert_eq!(*parse_request(text.as_bytes()).unwrap().method(), method);
    }
}

#[test]
fn garbage_is_a_bad_request() {
    assert_eq!(parse_request(b"GARBAGE\r\n\r\n").unwrap_err(), Error::BadRequest);
}

#[test]
fn text_that_is_not_utf8_is_a_bad_request() {
    assert_eq!(parse_request(b"GET /\xff HTTP/1.1\r\n\r\n").unwrap_err(), Error::BadRequest);
}

#[test]
fn short_request_lines_are_bad_requests() {
    for text in ["", "\r\n\r\n", "GET\r\n\r\n", "GET /\r\n\r\n", "GET  / \r\n\r\n"] {
        assert_eq!(parse_request(text.as_bytes()).unwrap_err(), Error::BadRequest, "{:?}", text);
    }
}

#[test]
fn unknown_methods_are_bad_requests() {
    for text in ["HEAD / HTTP/1.1\r\n\r\n", "get / HTTP/1.1\r\n\r\n", "PATCH / HTTP/1.1\r\n\r\n"] {
        assert_eq!(parse_request(text.as_bytes()).unwrap_err(), Error::BadRequest, "{:?}", text);
    }
}

#[test]
fn a_header_without_separator_is_a_bad_request() {
    assert_eq!(
        parse_request(b"GET / HTTP/1.1\r\nHost example.org\r\n\r\n").unwrap_err(),
        Error::BadRequest
    );
    assert_eq!(
        parse_request(b"GET / HTTP/1.1\r\nHost:example.org\r\n\r\n").unwrap_err(),
        Error::BadRequest
    );
    assert_eq!(
        parse_request(b"GET / HTTP/1.1\r\nA: b\r\nbroken\r\n\r\nbody").unwrap_err(),
        Error::BadRequest
    );
}

#[test]
fn a_request_without_blank_line_is_a_bad_request() {
    assert_eq!(parse_request(b"GET / HTTP/1.1").unwrap_err(), Error::BadRequest);
    assert_eq!(parse_request(b"GET / HTTP/1.1\r\n").unwrap_err(), Error::BadRequest);
    assert_eq!(parse_request(b"GET / HTTP/1.1\r\nA: b").unwrap_err(), Error::BadRequest);
    assert_eq!(parse_request(b"GET / HTTP/1.1\nA: b\n\n").unwrap_err(), Error::BadRequest);
}

#[test]
fn a_request_without_body_line_is_a_bad_request() {
    assert_eq!(parse_request(b"GET / HTTP/1.1\r\nA: b\r\n").unwrap_err(), Error::BadRequest);
}

#[test]
fn the_body_is_one_line() {
    let req = parse_request(b"POST / HTTP/1.1\r\n\r\nfirst\r\nsecond").unwrap();
    assert_eq!(req.body, b"first".to_vec());
    let req = parse_request(b"POST / HTTP/1.1\r\n\r\n\r\nsecond").unwrap();
    assert_eq!(req.body, b"".to_vec());
    let req = parse_request("POST / HTTP/1.1\r\n\r\nh\u{e9}".as_bytes()).unwrap();
    assert_eq!(req.body, "h\u{e9}".as_bytes().to_vec());
}

#[test]
fn a_header_value_goes_on_after_the_first_separator() {
    let req = parse_request(b"GET / HTTP/1.1\r\nA: b: c\r\nEmpty: \r\n: v\r\n\r\n").unwrap();
    assert_eq!(req.headers().get("A"), Some(&"b: c".to_string()));
    assert_eq!(req.headers().get("Empty"), Some(&"".to_string()));
    assert_eq!(req.headers().get(""), Some(&"v".to_string()));
}

#[test]
fn a_repeated_header_keeps_the_last_value() {
    let req = parse_request(b"GET / HTTP/1.1\r\nA: 1\r\nB: 2\r\nA: 3\r\n\r\n").unwrap();
    assert_eq!(req.headers().len(), 2);
    assert_eq!(req.headers().get("A"), Some(&"3".to_string()));
    assert_eq!(req.headers().name(0), "A");
}

#[test]
fn the_request_line_splits_at_any_white_space() {
    let req = parse_request(b"  GET\t/a?b=c   HTTP/1.1 and more\r\n\r\n").unwrap();
    assert_eq!(*req.method(), Method::GET);
    assert_eq!(req.uri().path(), "/a");
    assert_eq!(req.uri().query("b"), Some("c".to_string()));
}

#[test]
fn the_version_word_is_not_read() {
    let req = parse_request(b"GET / HTTP/9.9\r\n\r\n").unwrap();
    assert_eq!(*req.version(), Version::HTTP1_1);
}
