use httpcore::bytes::{bytes_eq, bytes_starts_with, split_bytes, u64_decimal};
use httpcore::config::get_config;
use httpcore::header::Header;
use httpcore::http::{HttpMethod, HttpStatus, HttpVersion};
use httpcore::response::{Response, StatusLine};

#[test]
fn decimal_rendering_is_exact() {
    assert_eq!(u64_decimal(0), b"0".to_vec());
    assert_eq!(u64_decimal(3), b"3".to_vec());
    assert_eq!(u64_decimal(10), b"10".to_vec());
    assert_eq!(u64_decimal(12345), b"12345".to_vec());
    assert_eq!(u64_decimal(u64::MAX), b"18446744073709551615".to_vec());
}

#[test]
fn byte_utilities_compare_and_split() {
    assert!(bytes_eq(b"abc", b"abc"));
    assert!(!bytes_eq(b"abc", b"abd"));
    assert!(!bytes_eq(b"abc", b"ab"));
    assert!(bytes_starts_with(b"/echo/x", b"/echo"));
    assert!(!bytes_starts_with(b"/ec", b"/echo"));

    let parts = split_bytes(b"a\r\nbb\r\n", b"\r\n");
    assert_eq!(parts, vec![b"a".to_vec(), b"bb".to_vec(), b"".to_vec()]);
    let parts = split_bytes(b"", b"\r\n");
    assert_eq!(parts, vec![b"".to_vec()]);
}

#[test]
fn method_tokens_parse_and_print() {
    for (token, method) in [
        ("GET", HttpMethod::Get),
        ("HEAD", HttpMethod::Head),
        ("POST", HttpMethod::Post),
        ("PUT", HttpMethod::Put),
        ("DELETE", HttpMethod::Delete),
        ("CONNECT", HttpMethod::Connect),
        ("OPTIONS", HttpMethod::Options),
        ("TRACE", HttpMethod::Trace),
        ("PATCH", HttpMethod::Patch),
    ] {
        assert_eq!(HttpMethod::from_str(token.as_bytes()), method);
        assert_eq!(method.value(), token);
    }
    assert_eq!(HttpMethod::from_str(b"FETCH"), HttpMethod::Get);
}

#[test]
fn version_tokens_parse_and_print() {
    for (token, version) in [
        ("HTTP/1.1", HttpVersion::HTTP1_1),
        ("HTTP/2", HttpVersion::HTTP2),
        ("HTTP/3", HttpVersion::HTTP3),
    ] {
        assert_eq!(HttpVersion::from_str(token.as_bytes()), version);
        assert_eq!(version.value(), token);
    }
    assert_eq!(HttpVersion::from_str(b"HTTP/1.0"), HttpVersion::HTTP1_1);
}

#[test]
fn status_codes_and_reasons() {
    for (status, code, reason) in [
        (HttpStatus::Continue, 100, "Continue"),
        (HttpStatus::OK, 200, "OK"),
        (HttpStatus::Created, 201, "Created"),
        (HttpStatus::BadRequest, 400, "Bad Request"),
        (HttpStatus::NotFound, 404, "Not Found"),
        (HttpStatus::MethodNotAllowed, 405, "Method Not Allowed"),
        (HttpStatus::InternalServerError, 500, "Internal Server Error"),
        (HttpStatus::HTTPVersionNotSupported, 505, "HTTP Version not supported"),
    ] {
        assert_eq!(status.value(), (code, reason));
    }
}

#[test]
fn status_line_serializes_with_default_version() {
    let sl = StatusLine::create(HttpStatus::OK, None);
    assert_eq!(sl.value(), b"HTTP/1.1 200 OK".to_vec());
    let sl = StatusLine::create(HttpStatus::NotFound, Some(HttpVersion::HTTP2));
    assert_eq!(sl.value(), b"HTTP/2 404 Not Found".to_vec());
}

#[test]
fn header_serializes_as_name_colon_value() {
    let h = Header::create(b"Content-Type", b"text/plain");
    assert_eq!(h.value(), b"Content-Type: text/plain\r\n".to_vec());
    assert_eq!(h.name, b"Content-Type".to_vec());
}

#[test]
fn explicit_headers_are_emitted_as_given() {
    let headers = vec![
        Header::create(b"X-One", b"1"),
        Header::create(b"X-Two", b"2"),
    ];
    let mut res = Response::create(HttpStatus::OK, Some(headers), None);
    assert_eq!(
        res.value(),
        b"HTTP/1.1 200 OK\r\nX-One: 1\r\nX-Two: 2\r\n\r\n".to_vec()
    );
}

#[test]
fn config_value_follows_its_flag() {
    let args: Vec<Vec<u8>> = vec![
        b"server".to_vec(),
        b"--directory".to_vec(),
        b"/srv/files".to_vec(),
    ];
    assert_eq!(get_config(&args, b"directory"), Some(b"/srv/files".to_vec()));
    assert_eq!(get_config(&args, b"port"), None);

    let empty: Vec<Vec<u8>> = Vec::new();
    assert_eq!(get_config(&empty, b"directory"), None);

    // A flag in the last position has no value after it.
    let dangling: Vec<Vec<u8>> = vec![b"server".to_vec(), b"--directory".to_vec()];
    assert_eq!(get_config(&dangling, b"directory"), None);
}
