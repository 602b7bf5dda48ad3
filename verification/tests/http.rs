use std::str::FromStr;
use warv::error::Error;
use warv::http::{Method, Request, Response, StatusCode, Uri, Version};

#[test]
fn methods_have_their_wire_names() {
    let all = [
        (Method::GET, "GET"),
        (Method::POST, "POST"),
        (Method::PUT, "PUT"),
        (Method::OPTIONS, "OPTIONS"),
        (Method::DELETE, "DELETE"),
        (Method::TRACE, "TRACE"),
    ];
    for (method, name) in all {
        assert_eq!(method.as_str(), name);
        assert_eq!(Method::from_token(name), Some(method));
        assert_eq!(Method::from_str(name), Ok(method));
        assert_eq!(name.parse::<Method>(), Ok(method));
    }
}

#[test]
fn other_words_name_no_method() {
    for name in ["", "get", "Get", "HEAD", "PATCH", "CONNECT", "GET ", "GARBAGE"] {
        assert_eq!(Method::from_token(name), None);
        assert_eq!(Method::from_str(name), Err(()));
    }
}

#[test]
fn version_has_its_wire_name() {
    assert_eq!(Version::HTTP1_1.as_str(), "HTTP/1.1");
    assert_eq!(Version::from_token("HTTP/1.1"), Some(Version::HTTP1_1));
    assert_eq!(Version::from_str("HTTP/1.1"), Ok(Version::HTTP1_1));
    assert_eq!(Version::from_str("HTTP/1.0"), Err(()));
    assert_eq!(Version::from_token("http/1.1"), None);
}

#[test]
fn statuses_have_code_and_reason() {
    let all = [
        (StatusCode::OK, 200, "OK"),
        (StatusCode::NoContent, 204, "No Content"),
        (StatusCode::BadRequest, 400, "Bad Request"),
        (StatusCode::NotFound, 404, "Not Found"),
        (StatusCode::InternalServerError, 500, "Internal Server Error"),
    ];
    for (status, code, reason) in all {
        assert_eq!(status.as_u16(), code);
        assert_eq!(status.reason(), reason);
    }
}

#[test]
fn uri_without_query() {
    let uri = Uri::new("/a/b");
    assert_eq!(uri.path(), "/a/b");
    assert!(uri.query.is_none());
    assert!(uri.pattern_params.is_none());
    assert_eq!(uri.query("a"), None);
    assert_eq!(uri.param("a"), None);
}

#[test]
fn uri_query_pairs() {
    let uri = Uri::new("/search?q=rust&lang=en&flag&empty=&eq=a=b");
    assert_eq!(uri.path(), "/search");
    assert_eq!(uri.query("q"), Some("rust".to_string()));
    assert_eq!(uri.query("lang"), Some("en".to_string()));
    assert_eq!(uri.query("flag"), Some("".to_string()));
    assert_eq!(uri.query("empty"), Some("".to_string()));
    assert_eq!(uri.query("eq"), Some("a=b".to_string()));
    assert_eq!(uri.query("Q"), None);
}

#[test]
fn uri_later_pair_replaces_earlier() {
    let uri = Uri::new("/x?a=1&b=2&a=3");
    assert_eq!(uri.query("a"), Some("3".to_string()));
    assert_eq!(uri.query.as_ref().unwrap().len(), 2);
}

#[test]
fn uri_empty_query_holds_the_empty_name() {
    let uri = Uri::new("/x?");
    assert_eq!(uri.path(), "/x");
    let query = uri.query.as_ref().unwrap();
    assert_eq!(query.len(), 1);
    assert_eq!(uri.query(""), Some("".to_string()));
}

#[test]
fn uri_splits_once_at_the_first_question_mark() {
    let uri = Uri::new("/x?a=1?b=2");
    assert_eq!(uri.path(), "/x");
    assert_eq!(uri.query("a"), Some("1?b=2".to_string()));
    let uri = Uri::new("?a=1");
    assert_eq!(uri.path(), "");
    assert_eq!(uri.query("a"), Some("1".to_string()));
}

#[test]
fn uri_is_not_percent_decoded() {
    let uri = Uri::new("/a%20b?k%3D=v%26");
    assert_eq!(uri.path(), "/a%20b");
    assert_eq!(uri.query("k%3D"), Some("v%26".to_string()));
}

#[test]
fn request_starts_blank() {
    let req = Request::new(Method::POST);
    assert_eq!(*req.method(), Method::POST);
    assert_eq!(*req.version(), Version::HTTP1_1);
    assert_eq!(req.uri().path(), "");
    assert!(req.uri().query.is_none());
    assert!(req.uri().pattern_params.is_none());
    assert_eq!(req.headers().len(), 0);
    assert!(req.body.is_empty());
    assert!(req.content().is_empty());
}

#[test]
fn request_setters() {
    let mut req = Request::new(Method::GET);
    req.set_uri("/p?x=1");
    req.insert_header("Host", "a");
    req.insert_header("Host", "b");
    req.body(b"hello".to_vec());
    assert_eq!(req.uri().path(), "/p");
    assert_eq!(req.uri().query("x"), Some("1".to_string()));
    assert_eq!(req.headers().get("Host"), Some(&"b".to_string()));
    assert_eq!(req.headers().len(), 1);
    assert_eq!(req.body, b"hello".to_vec());
    let mut params = warv::fields::Fields::new();
    params.insert("id".to_string(), "7".to_string());
    assert_eq!(req.add_params(params).uri().param("id"), Some("7".to_string()));
    req.set_uri("/q");
    assert_eq!(req.uri().param("id"), None);
}

#[test]
fn request_copies_are_independent() {
    let mut req = Request::new(Method::GET);
    req.insert_header("A", "1");
    let mut copy = req.clone();
    copy.insert_header("A", "2");
    copy.body(vec![1]);
    assert_eq!(req.headers().get("A"), Some(&"1".to_string()));
    assert!(req.body.is_empty());
}

#[test]
fn response_presets() {
    let presets = [
        (Response::ok(), StatusCode::OK, &b""[..]),
        (Response::bad_request(), StatusCode::BadRequest, &b""[..]),
        (Response::no_content(), StatusCode::NoContent, &b""[..]),
        (Response::not_found(), StatusCode::NotFound, &b"Not Found"[..]),
        (Response::internal_server_error(), StatusCode::InternalServerError, &b""[..]),
        (Response::new(StatusCode::NoContent), StatusCode::NoContent, &b""[..]),
    ];
    for (resp, status, body) in presets {
        assert_eq!(*resp.status(), status);
        assert_eq!(*resp.version(), Version::HTTP1_1);
        assert_eq!(resp.headers().len(), 0);
        assert_eq!(resp.content().as_slice(), body);
    }
}

#[test]
fn response_serializes_in_the_wire_format() {
    let mut resp = Response::ok();
    resp.insert_header("Content-Type".to_string(), "text/html".to_string());
    resp.insert_header("X-A".to_string(), "1".to_string());
    resp.insert_header("Content-Type".to_string(), "text/plain".to_string());
    resp.body(b"Hello World".to_vec());
    let bytes = resp.format_with_date("Tue, 1 Jul 2003 10:52:37 +0200");
    let expected = "HTTP/1.1 200 OK\r\nContent-Length: 11\r\nServer: warv\r\n\
                    Date: Tue, 1 Jul 2003 10:52:37 +0200\r\nContent-Type: text/plain\r\n\
                    X-A: 1\r\n\r\nHello World";
    assert_eq!(String::from_utf8(bytes).unwrap(), expected);
}

#[test]
fn response_body_is_written_as_it_is() {
    let mut resp = Response::internal_server_error();
    resp.body(vec![0xff, 0x00, 0x80]);
    let bytes = resp.format_with_date("D");
    let head = b"HTTP/1.1 500 Internal Server Error\r\nContent-Length: 3\r\nServer: warv\r\nDate: D\r\n\r\n";
    assert_eq!(&bytes[..head.len()], &head[..]);
    assert_eq!(&bytes[head.len()..], &[0xff, 0x00, 0x80]);
}

#[test]
fn not_found_serializes_with_its_body() {
    let bytes = Response::not_found().format_with_date("");
    assert_eq!(
        String::from_utf8(bytes).unwrap(),
        "HTTP/1.1 404 Not Found\r\nContent-Length: 9\r\nServer: warv\r\nDate: \r\n\r\nNot Found"
    );
}

fn without_date(bytes: &[u8]) -> (Vec<u8>, Vec<u8>) {
    let marker = b"\r\nDate: ";
    let start = bytes.windows(marker.len()).position(|w| w == marker).unwrap() + marker.len();
    let len = bytes[start..].windows(2).position(|w| w == b"\r\n").unwrap();
    (bytes[..start].to_vec(), bytes[start + len..].to_vec())
}

#[test]
fn two_serializations_differ_in_the_date_only() {
    let mut resp = Response::ok();
    resp.insert_header("A".to_string(), "1".to_string());
    resp.insert_header("B".to_string(), "2".to_string());
    resp.body(b"body".to_vec());
    let first = resp.format();
    let second = resp.format();
    assert_eq!(without_date(&first), without_date(&second));
    let fixed = resp.format_with_date("X");
    assert_eq!(without_date(&first), without_date(&fixed));
    assert_eq!(resp.format_with_date("X"), fixed);
}

#[test]
fn the_date_is_an_rfc_2822_date() {
    let bytes = Response::ok().format();
    let text = String::from_utf8(bytes).unwrap();
    let line = text.split("\r\n").find(|l| l.starts_with("Date: ")).unwrap();
    let date = &line["Date: ".len()..];
    assert!(date.ends_with(" +0000"), "{}", date);
    assert_eq!(date.matches(':').count(), 2);
    assert_eq!(&date[3..5], ", ");
}

#[test]
fn bad_request_error() {
    let resp = Error::BadRequest.http_response();
    assert_eq!(*resp.status(), StatusCode::BadRequest);
    assert!(resp.content().is_empty());
    assert_eq!(resp.headers().len(), 0);
    assert_eq!(Error::BadRequest.message(), "Bad Request");
}

#[test]
fn query_round_trip() {
    let uri = Uri::new("/x?a=1&b=");
    assert_eq!(uri.path(), "/x");
    assert_eq!(uri.query("a"), Some("1".to_string()));
    assert_eq!(uri.query("b"), Some("".to_string()));
    assert_eq!(uri.query("missing"), None);
}
