use httpcore::http::HttpStatus;
use httpcore::router::{handle, files_outcome, FileOutcome, FsAction};

const DIR: &[u8] = b"/tmp/rust-server";

#[test]
fn echo_answers_with_the_suffix() {
    let (mut res, action) = handle(b"GET /echo/abc HTTP/1.1\r\n\r\n", DIR);
    assert!(action.is_none());
    let wire = res.value();
    assert_eq!(
        wire,
        b"HTTP/1.1 200 OK\r\nContent-Type: text/plain\r\nContent-Length: 3\r\n\r\nabc".to_vec()
    );
}

#[test]
fn root_answers_200_with_empty_body() {
    let (mut res, action) = handle(b"GET / HTTP/1.1\r\n\r\n", DIR);
    assert!(action.is_none());
    assert_eq!(res.value(), b"HTTP/1.1 200 OK\r\n\r\n".to_vec());
}

#[test]
fn unknown_target_answers_404_with_empty_body() {
    let (mut res, action) = handle(b"GET /nonexistent HTTP/1.1\r\n\r\n", DIR);
    assert!(action.is_none());
    assert_eq!(res.status.status, HttpStatus::NotFound);
    assert_eq!(res.value(), b"HTTP/1.1 404 Not Found\r\n\r\n".to_vec());
}

#[test]
fn user_agent_reflects_the_header() {
    let (mut res, action) = handle(
        b"GET /user-agent HTTP/1.1\r\nUser-Agent: test-agent\r\n\r\n",
        DIR,
    );
    assert!(action.is_none());
    let wire = res.value();
    assert_eq!(
        wire,
        b"HTTP/1.1 200 OK\r\nContent-Type: text/plain\r\nContent-Length: 10\r\n\r\ntest-agent"
            .to_vec()
    );
}

#[test]
fn user_agent_without_header_answers_400() {
    let (mut res, action) = handle(b"GET /user-agent HTTP/1.1\r\n\r\n", DIR);
    assert!(action.is_none());
    assert_eq!(res.status.status, HttpStatus::BadRequest);
    res.value();
}

#[test]
fn echo_boundary_too_short_answers_400() {
    // `/echo` is shorter than `/echo/` plus one byte.
    let (mut res, action) = handle(b"GET /echo HTTP/1.1\r\n\r\n", DIR);
    assert!(action.is_none());
    assert_eq!(res.status.status, HttpStatus::BadRequest);
    // So is `/echo/` itself.
    let (res2, action2) = handle(b"GET /echo/ HTTP/1.1\r\n\r\n", DIR);
    assert!(action2.is_none());
    assert_eq!(res2.status.status, HttpStatus::BadRequest);
    res.value();
}

#[test]
fn files_boundary_too_short_answers_400() {
    let (res, action) = handle(b"GET /files HTTP/1.1\r\n\r\n", DIR);
    assert!(action.is_none());
    assert_eq!(res.status.status, HttpStatus::BadRequest);
    let (res2, action2) = handle(b"GET /files/ HTTP/1.1\r\n\r\n", DIR);
    assert!(action2.is_none());
    assert_eq!(res2.status.status, HttpStatus::BadRequest);
}

#[test]
fn unsupported_version_answers_505() {
    let (mut res, action) = handle(b"GET / HTTP/2\r\n\r\n", DIR);
    assert!(action.is_none());
    assert_eq!(res.status.status, HttpStatus::HTTPVersionNotSupported);
    assert_eq!(
        res.value(),
        b"HTTP/1.1 505 HTTP Version not supported\r\n\r\n".to_vec()
    );
}

#[test]
fn malformed_request_answers_400() {
    let (res, action) = handle(b"GET\r\n\r\n", DIR);
    assert!(action.is_none());
    assert_eq!(res.status.status, HttpStatus::BadRequest);
}

#[test]
fn files_get_asks_for_a_read_under_the_directory() {
    let (_res, action) = handle(b"GET /files/new.txt HTTP/1.1\r\n\r\n", DIR);
    match action {
        Some(FsAction::ReadFile { path }) => {
            assert_eq!(path, b"/tmp/rust-server/new.txt".to_vec());
        }
        other => panic!("expected a read action, got {:?}", other),
    }
}

#[test]
fn files_post_asks_for_a_write_of_the_body() {
    let (_res, action) = handle(
        b"POST /files/new.txt HTTP/1.1\r\nContent-Length: 5\r\n\r\nhello",
        DIR,
    );
    match action {
        Some(FsAction::WriteFile { path, content }) => {
            assert_eq!(path, b"/tmp/rust-server/new.txt".to_vec());
            assert_eq!(content, b"hello".to_vec());
        }
        other => panic!("expected a write action, got {:?}", other),
    }
}

#[test]
fn files_other_method_answers_405() {
    let (res, action) = handle(b"DELETE /files/new.txt HTTP/1.1\r\n\r\n", DIR);
    assert!(action.is_none());
    assert_eq!(res.status.status, HttpStatus::MethodNotAllowed);
}

#[test]
fn files_write_outcomes_settle_the_status() {
    // A fresh write succeeds with 201 Created.
    let (mut res, action) = handle(
        b"POST /files/new.txt HTTP/1.1\r\nContent-Length: 5\r\n\r\nhello",
        DIR,
    );
    assert!(matches!(action, Some(FsAction::WriteFile { .. })));
    files_outcome(FileOutcome::Written, &mut res);
    assert_eq!(res.status.status, HttpStatus::Created);
    assert_eq!(res.value(), b"HTTP/1.1 201 Created\r\n\r\n".to_vec());

    // Repeating the same write finds the file present: 405.
    let (mut res2, action2) = handle(
        b"POST /files/new.txt HTTP/1.1\r\nContent-Length: 5\r\n\r\nhello",
        DIR,
    );
    assert!(matches!(action2, Some(FsAction::WriteFile { .. })));
    files_outcome(FileOutcome::AlreadyExists, &mut res2);
    assert_eq!(res2.status.status, HttpStatus::MethodNotAllowed);
}

#[test]
fn files_read_success_serves_the_bytes_as_octet_stream() {
    let (mut res, action) = handle(b"GET /files/new.txt HTTP/1.1\r\n\r\n", DIR);
    assert!(matches!(action, Some(FsAction::ReadFile { .. })));
    files_outcome(FileOutcome::ReadOk(b"hello".to_vec()), &mut res);
    let wire = res.value();
    assert_eq!(
        wire,
        b"HTTP/1.1 200 OK\r\nContent-Type: application/octet-stream\r\nContent-Length: 5\r\n\r\nhello"
            .to_vec()
    );
}

#[test]
fn files_read_of_missing_file_answers_404() {
    let (mut res, _action) = handle(b"GET /files/none.txt HTTP/1.1\r\n\r\n", DIR);
    files_outcome(FileOutcome::NotFound, &mut res);
    assert_eq!(res.status.status, HttpStatus::NotFound);
    assert_eq!(res.value(), b"HTTP/1.1 404 Not Found\r\n\r\n".to_vec());
}

#[test]
fn files_read_failure_answers_500_with_the_error_text() {
    let (mut res, _action) = handle(b"GET /files/bad.bin HTTP/1.1\r\n\r\n", DIR);
    files_outcome(FileOutcome::ReadFailed(b"stream did not contain valid UTF-8".to_vec()), &mut res);
    assert_eq!(res.status.status, HttpStatus::InternalServerError);
    let wire = res.value();
    assert!(wire.starts_with(b"HTTP/1.1 500 Internal Server Error\r\n"));
    assert!(wire.ends_with(b"stream did not contain valid UTF-8"));
}

#[test]
fn files_write_failures_answer_500() {
    let (mut res, _action) = handle(
        b"POST /files/new.txt HTTP/1.1\r\n\r\nhello",
        DIR,
    );
    files_outcome(FileOutcome::CreateFailed, &mut res);
    assert_eq!(res.status.status, HttpStatus::InternalServerError);

    let (mut res2, _action2) = handle(
        b"POST /files/new.txt HTTP/1.1\r\n\r\nhello",
        DIR,
    );
    files_outcome(FileOutcome::WriteFailed, &mut res2);
    assert_eq!(res2.status.status, HttpStatus::InternalServerError);

    let (mut res3, _action3) = handle(b"GET /files/new.txt HTTP/1.1\r\n\r\n", DIR);
    files_outcome(FileOutcome::OpenFailed, &mut res3);
    assert_eq!(res3.status.status, HttpStatus::InternalServerError);
}

#[test]
fn repeated_reads_of_the_same_file_are_byte_identical() {
    let serve = || {
        let (mut res, action) = handle(b"GET /files/data.bin HTTP/1.1\r\n\r\n", DIR);
        assert!(matches!(action, Some(FsAction::ReadFile { .. })));
        files_outcome(FileOutcome::ReadOk(b"same old bytes".to_vec()), &mut res);
        res.value()
    };
    let first = serve();
    let second = serve();
    assert_eq!(first, second);
}
