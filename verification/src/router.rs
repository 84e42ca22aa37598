//! Routing a parsed request to its handler.  Every handler is a pure
//! function of the request and the response under construction; the file
//! handler additionally hands out the filesystem action it needs and later
//! consumes the outcome as a plain value, so that all filesystem work
//! stays outside the crate.

use vstd::prelude::*;
use vstd::string::StringSliceAdditionalSpecFns;
use crate::body::{BodyV, HttpBody};
use crate::bytes::{bytes_eq, bytes_starts_with, extend_bytes, spec_decimal, spec_starts_with,
    u64_decimal};
use crate::header::{Header, HeaderV};
use crate::http::{HttpEncoding, HttpMethod, HttpStatus, HttpVersion};
use crate::request::{Request, RequestV, spec_has_header, spec_parse};
use crate::response::{Response, ResponseV, StatusLine, spec_response_wire};

verus! {

/// The filesystem work the file handler asks its caller to perform.
#[derive(Debug)]
pub enum FsAction {
    /// Read the file at `path` and hand back its bytes.
    ReadFile { path: Vec<u8> },
    /// Create the file at `path` with exactly `content` as its bytes.
    WriteFile { path: Vec<u8>, content: Vec<u8> },
}

/// The mathematical value of an [`FsAction`].
pub ghost enum FsActionV {
    ReadFile { path: Seq<u8> },
    WriteFile { path: Seq<u8>, content: Seq<u8> },
}

impl View for FsAction {
    type V = FsActionV;

    open spec fn view(&self) -> FsActionV {
        match self {
            FsAction::ReadFile { path } => FsActionV::ReadFile { path: path@ },
            FsAction::WriteFile { path, content } => FsActionV::WriteFile {
                path: path@,
                content: content@,
            },
        }
    }
}

/// How the filesystem answered an [`FsAction`].
#[derive(Debug)]
pub enum FileOutcome {
    /// The file to read does not exist.
    NotFound,
    /// The file exists but could not be opened.
    OpenFailed,
    /// The file was opened but reading it failed; the error's rendering.
    ReadFailed(Vec<u8>),
    /// The file's bytes.
    ReadOk(Vec<u8>),
    /// The file to create already exists.
    AlreadyExists,
    /// The file could not be created.
    CreateFailed,
    /// The file was created but writing it failed.
    WriteFailed,
    /// The file was created and written.
    Written,
}

/// The mathematical value of a [`FileOutcome`].
pub ghost enum FileOutcomeV {
    NotFound,
    OpenFailed,
    ReadFailed(Seq<u8>),
    ReadOk(Seq<u8>),
    AlreadyExists,
    CreateFailed,
    WriteFailed,
    Written,
}

impl View for FileOutcome {
    type V = FileOutcomeV;

    open spec fn view(&self) -> FileOutcomeV {
        match self {
            FileOutcome::NotFound => FileOutcomeV::NotFound,
            FileOutcome::OpenFailed => FileOutcomeV::OpenFailed,
            FileOutcome::ReadFailed(msg) => FileOutcomeV::ReadFailed(msg@),
            FileOutcome::ReadOk(content) => FileOutcomeV::ReadOk(content@),
            FileOutcome::AlreadyExists => FileOutcomeV::AlreadyExists,
            FileOutcome::CreateFailed => FileOutcomeV::CreateFailed,
            FileOutcome::WriteFailed => FileOutcomeV::WriteFailed,
            FileOutcome::Written => FileOutcomeV::Written,
        }
    }
}

/// A response with only the status replaced.
pub open spec fn with_status(r: ResponseV, status: HttpStatus) -> ResponseV {
    ResponseV { status: StatusLine { status, version: r.status.version }, ..r }
}

/// The echo handler: `/echo/X` answers 200 with body `X`; a target too
/// short to carry `/echo/` plus one byte answers 400.
pub open spec fn spec_echo(target: Seq<u8>, r: ResponseV) -> ResponseV {
    if target.len() < 7 {
        with_status(r, HttpStatus::BadRequest)
    } else {
        ResponseV {
            body: Some(BodyV { content: target.skip(6), compressed: None }),
            ..with_status(r, HttpStatus::OK)
        }
    }
}

/// Answer `/echo/X` requests.
pub fn echo(target: &[u8], res: &mut Response)
    ensures
        final(res)@ == spec_echo(target@, old(res)@),
{
    if target.len() < 7 {
        res.set_status(HttpStatus::BadRequest);
        return;
    }
    let content = vstd::slice::slice_subrange(target, 6, target.len());
    res.set_status(HttpStatus::OK);
    res.body = Some(HttpBody::create(vstd::slice::slice_to_vec(content)));
}

/// The user-agent handler: 200 with the value of the first `User-Agent`
/// header as the body, or 400 when the request carries none.
pub open spec fn spec_user_agent(req: RequestV, r: ResponseV) -> ResponseV {
    match spec_has_header(req, "User-Agent".spec_bytes()) {
        Some(h) => ResponseV {
            body: Some(BodyV { content: h.value, compressed: None }),
            ..with_status(r, HttpStatus::OK)
        },
        None => with_status(r, HttpStatus::BadRequest),
    }
}

/// Answer `/user-agent` requests.
pub fn user_agent(req: &Request, res: &mut Response)
    ensures
        final(res)@ == spec_user_agent(req@, old(res)@),
{
    match req.has_header("User-Agent".as_bytes()) {
        Some(header) => {
            let content = vstd::slice::slice_to_vec(header.value.as_slice());
            res.set_status(HttpStatus::OK);
            res.body = Some(HttpBody::create(content));
        },
        None => {
            res.set_status(HttpStatus::BadRequest);
        },
    }
}

/// The path the file handler resolves `query` to: the base directory, a
/// slash, and the query.
pub open spec fn spec_file_path(dir: Seq<u8>, query: Seq<u8>) -> Seq<u8> {
    dir + seq![47u8] + query
}

/// The file handler's decision, before any filesystem work: a target too
/// short to carry `/files/` plus one byte answers 400; GET asks for a
/// read, POST asks for a write of the request body (empty when the
/// request carried none), and any other method answers 405.
pub open spec fn spec_files(req: RequestV, r: ResponseV, dir: Seq<u8>) -> (ResponseV, Option<
    FsActionV,
>) {
    let target = req.req_line.target;
    if target.len() < 8 {
        (with_status(r, HttpStatus::BadRequest), None)
    } else {
        let path = spec_file_path(dir, target.skip(7));
        match req.req_line.method {
            HttpMethod::Get => (r, Some(FsActionV::ReadFile { path })),
            HttpMethod::Post => (
                r,
                Some(
                    FsActionV::WriteFile {
                        path,
                        content: match req.body {
                            Some(b) => b.content,
                            None => Seq::empty(),
                        },
                    },
                ),
            ),
            _ => (with_status(r, HttpStatus::MethodNotAllowed), None),
        }
    }
}

/// Decide what `/files/<name>` requires: the response is settled at once
/// where no filesystem work is needed, and otherwise the returned action
/// names the work whose [`FileOutcome`] is later applied by
/// [`files_outcome`].
pub fn files(req: &Request, res: &mut Response, dir: &[u8]) -> (r: Option<FsAction>)
    ensures
        final(res)@ == spec_files(req@, old(res)@, dir@).0,
        match r {
            Some(a) => spec_files(req@, old(res)@, dir@).1 == Some(a@),
            None => spec_files(req@, old(res)@, dir@).1 is None,
        },
{
    let target = &req.req_line.target;
    if target.len() < 8 {
        res.set_status(HttpStatus::BadRequest);
        return None;
    }
    let query = vstd::slice::slice_subrange(target.as_slice(), 7, target.len());
    let mut path = vstd::slice::slice_to_vec(dir);
    path.push(47);
    extend_bytes(&mut path, query);
    proof {
        assert(path@ =~= spec_file_path(dir@, target@.skip(7)));
    }
    match req.req_line.method {
        HttpMethod::Get => Some(FsAction::ReadFile { path }),
        HttpMethod::Post => {
            let content = match &req.body {
                Some(b) => vstd::slice::slice_to_vec(b.content.as_slice()),
                None => Vec::new(),
            };
            proof {
                assert(content@ =~= (match req@.body {
                    Some(b) => b.content,
                    None => Seq::<u8>::empty(),
                }));
            }
            Some(FsAction::WriteFile { path, content })
        },
        _ => {
            res.set_status(HttpStatus::MethodNotAllowed);
            None
        },
    }
}

/// The response a filesystem outcome settles: a successful read answers
/// 200 with explicit `Content-Type: application/octet-stream` and
/// `Content-Length` headers and the file's bytes as the body; a missing
/// file answers 404; a read failure answers 500, with the error rendering
/// as the body when the file had been opened; a write answers 201, a
/// colliding write 405, and a failed write 500.
pub open spec fn spec_apply_outcome(o: FileOutcomeV, r: ResponseV) -> ResponseV {
    match o {
        FileOutcomeV::NotFound => with_status(r, HttpStatus::NotFound),
        FileOutcomeV::OpenFailed => with_status(r, HttpStatus::InternalServerError),
        FileOutcomeV::ReadFailed(msg) => ResponseV {
            body: Some(BodyV { content: msg, compressed: None }),
            ..with_status(r, HttpStatus::InternalServerError)
        },
        FileOutcomeV::ReadOk(content) => ResponseV {
            headers: Some(
                seq![
                    HeaderV {
                        name: "Content-Type".spec_bytes(),
                        value: "application/octet-stream".spec_bytes(),
                    },
                    HeaderV {
                        name: "Content-Length".spec_bytes(),
                        value: spec_decimal(content.len()),
                    },
                ],
            ),
            body: Some(BodyV { content, compressed: None }),
            ..with_status(r, HttpStatus::OK)
        },
        FileOutcomeV::AlreadyExists => with_status(r, HttpStatus::MethodNotAllowed),
        FileOutcomeV::CreateFailed => with_status(r, HttpStatus::InternalServerError),
        FileOutcomeV::WriteFailed => with_status(r, HttpStatus::InternalServerError),
        FileOutcomeV::Written => with_status(r, HttpStatus::Created),
    }
}

/// Fold the outcome of the filesystem work asked for by [`files`] into
/// the response.
pub fn files_outcome(outcome: FileOutcome, res: &mut Response)
    ensures
        final(res)@ == spec_apply_outcome(outcome@, old(res)@),
{
    match outcome {
        FileOutcome::NotFound => {
            res.set_status(HttpStatus::NotFound);
        },
        FileOutcome::OpenFailed => {
            res.set_status(HttpStatus::InternalServerError);
        },
        FileOutcome::ReadFailed(msg) => {
            res.set_status(HttpStatus::InternalServerError);
            res.body = Some(HttpBody::create(msg));
        },
        FileOutcome::ReadOk(content) => {
            let content_type = Header::create(
                "Content-Type".as_bytes(),
                "application/octet-stream".as_bytes(),
            );
            let digits = u64_decimal(content.len() as u64);
            let content_length = Header::create("Content-Length".as_bytes(), digits.as_slice());
            let mut headers: Vec<Header> = Vec::new();
            headers.push(content_type);
            headers.push(content_length);
            proof {
                assert(crate::header::header_views(headers@) =~= seq![
                    HeaderV {
                        name: "Content-Type".spec_bytes(),
                        value: "application/octet-stream".spec_bytes(),
                    },
                    HeaderV {
                        name: "Content-Length".spec_bytes(),
                        value: spec_decimal(content@.len()),
                    },
                ]);
            }
            res.headers = Some(headers);
            res.set_status(HttpStatus::OK);
            res.body = Some(HttpBody::create(content));
        },
        FileOutcome::AlreadyExists => {
            res.set_status(HttpStatus::MethodNotAllowed);
        },
        FileOutcome::CreateFailed => {
            res.set_status(HttpStatus::InternalServerError);
        },
        FileOutcome::WriteFailed => {
            res.set_status(HttpStatus::InternalServerError);
        },
        FileOutcome::Written => {
            res.set_status(HttpStatus::Created);
        },
    }
}

/// The response before routing: 100 Continue under HTTP/1.1, with no
/// headers, body or encoding.
pub open spec fn spec_initial_response() -> ResponseV {
    ResponseV {
        status: StatusLine { status: HttpStatus::Continue, version: HttpVersion::HTTP1_1 },
        headers: None,
        body: None,
        encoding: None,
    }
}

/// The whole decision a request buffer settles before any filesystem
/// work: 400 when the buffer does not parse, 505 for any version but
/// HTTP/1.1, and otherwise the encoding negotiated from `Accept-Encoding`
/// followed by routing on the target — `/`, `/user-agent`, the `/echo`
/// prefix, the `/files` prefix (which may ask for filesystem work), and
/// 404 for everything else.
pub open spec fn spec_handle(buf: Seq<u8>, dir: Seq<u8>) -> (ResponseV, Option<FsActionV>) {
    let init = spec_initial_response();
    match spec_parse(buf) {
        Err(_) => (with_status(init, HttpStatus::BadRequest), None),
        Ok(req) => match req.req_line.version {
            HttpVersion::HTTP1_1 => {
                let ready = match spec_has_header(req, "Accept-Encoding".spec_bytes()) {
                    Some(h) => ResponseV {
                        encoding: HttpEncoding::spec_negotiate(h.value),
                        ..init
                    },
                    None => init,
                };
                let target = req.req_line.target;
                if target == "/".spec_bytes() {
                    (with_status(ready, HttpStatus::OK), None)
                } else if target == "/user-agent".spec_bytes() {
                    (spec_user_agent(req, ready), None)
                } else if spec_starts_with(target, "/echo".spec_bytes()) {
                    (spec_echo(target, ready), None)
                } else if spec_starts_with(target, "/files".spec_bytes()) {
                    spec_files(req, ready, dir)
                } else {
                    (with_status(ready, HttpStatus::NotFound), None)
                }
            },
            _ => (with_status(init, HttpStatus::HTTPVersionNotSupported), None),
        },
    }
}

/// Parse a request buffer and route it: the returned response is complete
/// unless an [`FsAction`] is also returned, in which case the action's
/// [`FileOutcome`] must be folded in with [`files_outcome`] before the
/// response is serialized.
pub fn handle(buf: &[u8], dir: &[u8]) -> (r: (Response, Option<FsAction>))
    ensures
        r.0@ == spec_handle(buf@, dir@).0,
        match r.1 {
            Some(a) => spec_handle(buf@, dir@).1 == Some(a@),
            None => spec_handle(buf@, dir@).1 is None,
        },
{
    let mut res = Response::create(HttpStatus::Continue, None, None);
    match Request::create(buf) {
        Err(_) => {
            res.set_status(HttpStatus::BadRequest);
            (res, None)
        },
        Ok(req) => {
            if let HttpVersion::HTTP1_1 = req.req_line.version {
                if let Some(header) = req.has_header("Accept-Encoding".as_bytes()) {
                    let e = HttpEncoding::first_valid(header);
                    res.set_encoding(e);
                }
                let target = &req.req_line.target;
                if bytes_eq(target.as_slice(), "/".as_bytes()) {
                    res.set_status(HttpStatus::OK);
                    (res, None)
                } else if bytes_eq(target.as_slice(), "/user-agent".as_bytes()) {
                    user_agent(&req, &mut res);
                    (res, None)
                } else if bytes_starts_with(target.as_slice(), "/echo".as_bytes()) {
                    let t = vstd::slice::slice_to_vec(target.as_slice());
                    echo(t.as_slice(), &mut res);
                    (res, None)
                } else if bytes_starts_with(target.as_slice(), "/files".as_bytes()) {
                    let action = files(&req, &mut res, dir);
                    (res, action)
                } else {
                    res.set_status(HttpStatus::NotFound);
                    (res, None)
                }
            } else {
                res.set_status(HttpStatus::HTTPVersionNotSupported);
                (res, None)
            }
        },
    }
}

/// Repeatedly serving the same unmodified file answers with byte-identical
/// responses: the wire bytes after folding a successful read of the same
/// file content into the response that the same request buffer settles are
/// the same, however many times the exchange is repeated.
pub proof fn lemma_repeated_file_get_identical(
    buf: Seq<u8>,
    dir: Seq<u8>,
    content: Seq<u8>,
    r1: ResponseV,
    r2: ResponseV,
)
    requires
        r1 == spec_apply_outcome(FileOutcomeV::ReadOk(content), spec_handle(buf, dir).0),
        r2 == spec_apply_outcome(FileOutcomeV::ReadOk(content), spec_handle(buf, dir).0),
    ensures
        spec_response_wire(r1) == spec_response_wire(r2),
{
}

} // verus!
