use std::io::Read;

use httpcore::body::HttpBody;
use httpcore::header::Header;
use httpcore::http::HttpEncoding;
use httpcore::router::handle;

const DIR: &[u8] = b"/tmp/rust-server";

fn gunzip(data: &[u8]) -> Vec<u8> {
    let mut decoder = flate2::bufread::GzDecoder::new(data);
    let mut out = Vec::new();
    decoder.read_to_end(&mut out).expect("valid gzip stream");
    out
}

fn gzip_reference(data: &[u8]) -> Vec<u8> {
    let mut encoder = flate2::bufread::GzEncoder::new(data, flate2::Compression::default());
    let mut out = Vec::new();
    encoder.read_to_end(&mut out).unwrap();
    out
}

#[test]
fn echo_with_gzip_accept_encoding_compresses_the_body() {
    let (mut res, action) = handle(
        b"GET /echo/ab HTTP/1.1\r\nAccept-Encoding: gzip\r\n\r\n",
        DIR,
    );
    assert!(action.is_none());
    let wire = res.value();

    // Split the wire response at the blank line.
    let boundary = wire
        .windows(4)
        .position(|w| w == b"\r\n\r\n")
        .expect("header/body boundary");
    let head = &wire[..boundary + 2];
    let body = &wire[boundary + 4..];

    let head_text = String::from_utf8(head.to_vec()).unwrap();
    assert!(head_text.starts_with("HTTP/1.1 200 OK\r\n"));
    assert!(head_text.contains("Content-Type: text/plain\r\n"));
    assert!(head_text.contains("Content-Encoding: gzip\r\n"));
    let expected_length_line = format!("Content-Length: {}\r\n", body.len());
    assert!(head_text.contains(&expected_length_line));

    // The body is a valid gzip stream of the echoed text, not the text itself.
    assert_ne!(body, b"ab");
    assert_eq!(gunzip(body), b"ab".to_vec());
}

#[test]
fn unsupported_accept_encodings_leave_the_body_alone() {
    let (mut res, action) = handle(
        b"GET /echo/abc HTTP/1.1\r\nAccept-Encoding: deflate, br\r\n\r\n",
        DIR,
    );
    assert!(action.is_none());
    let wire = res.value();
    assert_eq!(
        wire,
        b"HTTP/1.1 200 OK\r\nContent-Type: text/plain\r\nContent-Length: 3\r\n\r\nabc".to_vec()
    );
}

#[test]
fn negotiation_takes_the_first_supported_token() {
    let header = Header::create(b"Accept-Encoding", b"deflate, gzip, br");
    assert_eq!(HttpEncoding::first_valid(&header), Some(HttpEncoding::Gzip));

    let header = Header::create(b"Accept-Encoding", b"gzip");
    assert_eq!(HttpEncoding::first_valid(&header), Some(HttpEncoding::Gzip));

    let header = Header::create(b"Accept-Encoding", b"deflate, compress, identity, br");
    assert_eq!(HttpEncoding::first_valid(&header), None);

    let header = Header::create(b"Accept-Encoding", b"nonsense, gzip");
    assert_eq!(HttpEncoding::first_valid(&header), Some(HttpEncoding::Gzip));

    let header = Header::create(b"Accept-Encoding", b"");
    assert_eq!(HttpEncoding::first_valid(&header), None);
}

#[test]
fn encoding_tokens_round_trip() {
    for (token, enc) in [
        ("gzip", HttpEncoding::Gzip),
        ("compress", HttpEncoding::Compress),
        ("deflate", HttpEncoding::Deflate),
        ("identity", HttpEncoding::Identity),
        ("br", HttpEncoding::Br),
    ] {
        assert_eq!(HttpEncoding::from_str(token.as_bytes()), Some(enc));
        assert_eq!(enc.value(), token);
        assert_eq!(enc.is_valid(), enc == HttpEncoding::Gzip);
    }
    assert_eq!(HttpEncoding::from_str(b"zstd"), None);
}

#[test]
fn file_reads_emit_explicit_headers_as_given_under_gzip() {
    // Explicit headers are emitted as-is: the file handler's
    // Content-Length states the raw byte count even when the body goes
    // out gzip-compressed, and Content-Encoding is appended after them.
    let (mut res, action) = handle(
        b"GET /files/f.bin HTTP/1.1\r\nAccept-Encoding: gzip\r\n\r\n",
        DIR,
    );
    match action {
        Some(httpcore::router::FsAction::ReadFile { path }) => {
            assert_eq!(path, b"/tmp/rust-server/f.bin".to_vec());
        }
        other => panic!("expected a read action, got {:?}", other),
    }
    httpcore::router::files_outcome(
        httpcore::router::FileOutcome::ReadOk(b"hello".to_vec()),
        &mut res,
    );
    let wire = res.value();
    let mut expected = b"HTTP/1.1 200 OK\r\nContent-Type: application/octet-stream\r\n\
Content-Length: 5\r\nContent-Encoding: gzip\r\n\r\n"
        .to_vec();
    expected.extend(gzip_reference(b"hello"));
    assert_eq!(wire, expected);
}

#[test]
fn body_encode_derives_gzip_and_prefers_it() {
    let mut body = HttpBody::create(b"hello hello hello".to_vec());
    assert_eq!(body.value(), b"hello hello hello".to_vec());
    assert_eq!(body.len(), 17);

    body.encode(&HttpEncoding::Gzip);
    let compressed = body.value();
    assert_eq!(compressed, gzip_reference(b"hello hello hello"));
    assert_eq!(body.len(), compressed.len());
    assert_eq!(gunzip(&compressed), b"hello hello hello".to_vec());
    // The raw content is retained.
    assert_eq!(body.content, b"hello hello hello".to_vec());

    // A non-gzip encoding clears the derived rendering.
    body.encode(&HttpEncoding::Deflate);
    assert_eq!(body.value(), b"hello hello hello".to_vec());
}
