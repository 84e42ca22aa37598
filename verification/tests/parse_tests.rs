use httpcore::http::{HttpMethod, HttpVersion};
use httpcore::request::{ParseError, Request};

#[test]
fn parse_simple_request_line() {
    let req = Request::create(b"GET /index.html HTTP/1.1\r\n\r\n").unwrap();
    assert_eq!(req.req_line.method, HttpMethod::Get);
    assert_eq!(req.req_line.target, b"/index.html".to_vec());
    assert_eq!(req.req_line.version, HttpVersion::HTTP1_1);
    assert!(req.headers.is_none());
    assert!(req.body.is_none());
}

#[test]
fn parse_headers_and_body() {
    let req = Request::create(
        b"POST /files/a.txt HTTP/1.1\r\nHost: localhost\r\nContent-Length: 5\r\n\r\nhello",
    )
    .unwrap();
    assert_eq!(req.req_line.method, HttpMethod::Post);
    let headers = req.headers.as_ref().unwrap();
    assert_eq!(headers.len(), 2);
    assert_eq!(headers[0].name, b"Host".to_vec());
    assert_eq!(headers[0].value, b"localhost".to_vec());
    assert_eq!(headers[1].name, b"Content-Length".to_vec());
    assert_eq!(headers[1].value, b"5".to_vec());
    assert_eq!(req.body.as_ref().unwrap().content, b"hello".to_vec());
}

#[test]
fn parse_multi_line_body_drops_line_breaks() {
    // The body lines after the blank line are joined without the CRLFs:
    // the line breaks are dropped, not reinserted.
    let req = Request::create(b"POST /files/a HTTP/1.1\r\n\r\nab\r\ncd").unwrap();
    assert_eq!(req.body.as_ref().unwrap().content, b"abcd".to_vec());
}

#[test]
fn parse_missing_tokens_is_malformed_request_line() {
    assert_eq!(
        Request::create(b"GET /x\r\n\r\n").unwrap_err(),
        ParseError::MalformedRequestLine
    );
    assert_eq!(
        Request::create(b"").unwrap_err(),
        ParseError::MalformedRequestLine
    );
}

#[test]
fn parse_header_without_separator_is_malformed_header() {
    assert_eq!(
        Request::create(b"GET / HTTP/1.1\r\nBadHeader\r\n\r\n").unwrap_err(),
        ParseError::MalformedHeader
    );
}

#[test]
fn parse_unknown_method_falls_back_to_get() {
    let req = Request::create(b"FETCH /x HTTP/1.1\r\n\r\n").unwrap();
    assert_eq!(req.req_line.method, HttpMethod::Get);
}

#[test]
fn parse_unknown_version_falls_back_to_http11() {
    let req = Request::create(b"GET /x HTTP/9.9\r\n\r\n").unwrap();
    assert_eq!(req.req_line.version, HttpVersion::HTTP1_1);
}

#[test]
fn parse_extra_request_line_tokens_are_ignored() {
    let req = Request::create(b"GET /x HTTP/1.1 junk\r\n\r\n").unwrap();
    assert_eq!(req.req_line.target, b"/x".to_vec());
    assert_eq!(req.req_line.version, HttpVersion::HTTP1_1);
}

#[test]
fn request_line_round_trip() {
    // Parsing a valid request and re-serializing the parsed fields gives
    // the first line back, byte for byte.
    let req = Request::create(b"POST /files/new.txt HTTP/1.1\r\nHost: h\r\n\r\nbody").unwrap();
    assert_eq!(req.req_line.value(), b"POST /files/new.txt HTTP/1.1".to_vec());
    let req = Request::create(b"DELETE /a%20b?q=1 HTTP/2\r\n\r\n").unwrap();
    assert_eq!(req.req_line.value(), b"DELETE /a%20b?q=1 HTTP/2".to_vec());
}

#[test]
fn has_header_finds_first_match_case_sensitively() {
    let req = Request::create(
        b"GET / HTTP/1.1\r\nX-K: one\r\nx-k: lower\r\nX-K: two\r\n\r\n",
    )
    .unwrap();
    let h = req.has_header(b"X-K").unwrap();
    assert_eq!(h.value, b"one".to_vec());
    assert!(req.has_header(b"X-Missing").is_none());
    let lower = req.has_header(b"x-k").unwrap();
    assert_eq!(lower.value, b"lower".to_vec());
}
