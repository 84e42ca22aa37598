//! Building a response and serializing it to wire bytes: status line,
//! header block — explicit headers as given, or defaults derived from the
//! body — and the body, compressed first when an encoding was negotiated.

use vstd::prelude::*;
use vstd::string::StringSliceAdditionalSpecFns;
use crate::body::{BodyV, HttpBody, spec_body_encoded, spec_body_wire};
use crate::bytes::{crlf, crlf_bytes, extend_bytes, sp, sp_bytes, spec_decimal, u64_decimal};
use crate::header::{Header, HeaderV, header_views, spec_header_line};
use crate::http::{HttpEncoding, HttpStatus, HttpVersion};

verus! {

/// The first line of a response: a status under a protocol version.
#[derive(Debug, Clone, Copy, PartialEq, Eq, Structural)]
pub struct StatusLine {
    pub status: HttpStatus,
    pub version: HttpVersion,
}

/// The wire form of a status line: `version SP code SP reason`.
pub open spec fn spec_status_line_bytes(sl: StatusLine) -> Seq<u8> {
    sl.version.spec_token() + sp() + spec_decimal(sl.status.spec_code() as nat) + sp()
        + sl.status.spec_reason()
}

impl StatusLine {
    /// A status line; the version defaults to HTTP/1.1.
    pub fn create(status: HttpStatus, version: Option<HttpVersion>) -> (r: StatusLine)
        ensures
            r.status == status,
            r.version == (match version {
                Some(v) => v,
                None => HttpVersion::HTTP1_1,
            }),
    {
        StatusLine {
            status,
            version: match version {
                Some(v) => v,
                None => HttpVersion::HTTP1_1,
            },
        }
    }

    /// The wire form of this status line.
    pub fn value(&self) -> (r: Vec<u8>)
        ensures
            r@ == spec_status_line_bytes(*self),
    {
        let (code, msg) = self.status.value();
        let mut r: Vec<u8> = Vec::new();
        extend_bytes(&mut r, self.version.value().as_bytes());
        extend_bytes(&mut r, sp_bytes().as_slice());
        let digits = u64_decimal(code as u64);
        extend_bytes(&mut r, digits.as_slice());
        extend_bytes(&mut r, sp_bytes().as_slice());
        extend_bytes(&mut r, msg.as_bytes());
        proof {
            assert(r@ =~= spec_status_line_bytes(*self));
        }
        r
    }
}

/// A response under construction: status line, optional explicit headers,
/// optional body, and the encoding negotiated for the body, if any.
#[derive(Debug)]
pub struct Response {
    pub status: StatusLine,
    pub headers: Option<Vec<Header>>,
    pub body: Option<HttpBody>,
    pub encoding: Option<HttpEncoding>,
}

/// The mathematical value of a [`Response`].
pub ghost struct ResponseV {
    pub status: StatusLine,
    pub headers: Option<Seq<HeaderV>>,
    pub body: Option<BodyV>,
    pub encoding: Option<HttpEncoding>,
}

impl View for Response {
    type V = ResponseV;

    open spec fn view(&self) -> ResponseV {
        ResponseV {
            status: self.status,
            headers: match self.headers {
                Some(ref hs) => Some(header_views(hs@)),
                None => None,
            },
            body: match self.body {
                Some(ref b) => Some(b@),
                None => None,
            },
            encoding: self.encoding,
        }
    }
}

/// The wire lines of a header sequence, in order.
pub open spec fn spec_headers_bytes(hs: Seq<HeaderV>) -> Seq<u8>
    decreases hs.len(),
{
    if hs.len() == 0 {
        Seq::empty()
    } else {
        spec_header_line(hs[0]) + spec_headers_bytes(hs.drop_first())
    }
}

/// The `Content-Encoding` header line announcing `e`.
pub open spec fn spec_encoding_header(e: HttpEncoding) -> Seq<u8> {
    spec_header_line(HeaderV { name: "Content-Encoding".spec_bytes(), value: e.spec_token() })
}

/// The body as serialization leaves it: when an encoding was negotiated
/// and a body exists, its compressed rendering has been derived.
pub open spec fn spec_response_body(r: ResponseV) -> Option<BodyV> {
    match (r.encoding, r.body) {
        (Some(e), Some(b)) => Some(spec_body_encoded(b, e)),
        (_, b) => b,
    }
}

/// The header block of the wire response.  Explicit headers are emitted
/// as given, followed by `Content-Encoding` when one was negotiated; when
/// none were given but a body exists, `Content-Type: text/plain` and a
/// `Content-Length` equal to the byte length of the body as transmitted
/// are generated; with neither headers nor body the block is empty.
pub open spec fn spec_header_block(r: ResponseV) -> Seq<u8> {
    let enc = match r.encoding {
        Some(e) => spec_encoding_header(e),
        None => Seq::<u8>::empty(),
    };
    match r.headers {
        Some(hs) => spec_headers_bytes(hs) + enc,
        None => match spec_response_body(r) {
            Some(b) => spec_header_line(
                HeaderV { name: "Content-Type".spec_bytes(), value: "text/plain".spec_bytes() },
            ) + spec_header_line(
                HeaderV {
                    name: "Content-Length".spec_bytes(),
                    value: spec_decimal(spec_body_wire(b).len()),
                },
            ) + enc,
            None => Seq::<u8>::empty(),
        },
    }
}

/// The full wire form of a response:
/// `STATUS-LINE CRLF HEADER-BLOCK CRLF BODY`.
pub open spec fn spec_response_wire(r: ResponseV) -> Seq<u8> {
    spec_status_line_bytes(r.status) + crlf() + spec_header_block(r) + crlf() + (
    match spec_response_body(r) {
        Some(b) => spec_body_wire(b),
        None => Seq::<u8>::empty(),
    })
}

/// The wire lines of the given headers, in order.
fn headers_bytes(headers: &Vec<Header>) -> (r: Vec<u8>)
    ensures
        r@ == spec_headers_bytes(header_views(headers@)),
{
    let ghost all = header_views(headers@);
    let mut r: Vec<u8> = Vec::new();
    let mut i: usize = 0;
    proof {
        assert(all.skip(0) =~= all);
    }
    while i < headers.len()
        invariant
            i <= headers@.len(),
            all == header_views(headers@),
            spec_headers_bytes(all) == r@ + spec_headers_bytes(all.skip(i as int)),
        decreases headers@.len() - i,
    {
        proof {
            assert(all.skip(i as int)[0] == headers@[i as int]@);
            assert(all.skip(i as int).drop_first() =~= all.skip(i + 1));
        }
        let line = headers[i].value();
        extend_bytes(&mut r, line.as_slice());
        i += 1;
    }
    proof {
        assert(all.skip(i as int) =~= Seq::<HeaderV>::empty());
        assert(r@ + Seq::<u8>::empty() =~= r@);
    }
    r
}

impl Response {
    /// A response with the given status (under HTTP/1.1), headers and
    /// body, and no encoding negotiated yet.
    pub fn create(status: HttpStatus, headers: Option<Vec<Header>>, body: Option<HttpBody>) -> (r:
        Response)
        ensures
            r@ == (ResponseV {
                status: StatusLine { status, version: HttpVersion::HTTP1_1 },
                headers: match headers {
                    Some(hs) => Some(header_views(hs@)),
                    None => None,
                },
                body: match body {
                    Some(b) => Some(b@),
                    None => None,
                },
                encoding: None,
            }),
    {
        Response { status: StatusLine::create(status, None), headers, body, encoding: None }
    }

    /// Serialize this response to wire bytes, deriving the compressed body
    /// first when an encoding was negotiated.
    pub fn value(&mut self) -> (r: Vec<u8>)
        ensures
            r@ == spec_response_wire(old(self)@),
            final(self)@ == (ResponseV { body: spec_response_body(old(self)@), ..old(self)@ }),
    {
        if let Some(e) = self.encoding {
            if let Some(body) = &mut self.body {
                body.encode(&e);
            }
        }
        let mut res: Vec<u8> = Vec::new();
        let status = self.status.value();
        extend_bytes(&mut res, status.as_slice());
        extend_bytes(&mut res, crlf_bytes().as_slice());
        match &self.headers {
            Some(headers) => {
                let block = headers_bytes(headers);
                extend_bytes(&mut res, block.as_slice());
                if let Some(e) = self.encoding {
                    let h = Header::create("Content-Encoding".as_bytes(), e.value().as_bytes());
                    extend_bytes(&mut res, h.value().as_slice());
                }
            },
            None => {
                if let Some(body) = &self.body {
                    let ct = Header::create("Content-Type".as_bytes(), "text/plain".as_bytes());
                    extend_bytes(&mut res, ct.value().as_slice());
                    let digits = u64_decimal(body.len() as u64);
                    let cl = Header::create("Content-Length".as_bytes(), digits.as_slice());
                    extend_bytes(&mut res, cl.value().as_slice());
                    if let Some(e) = self.encoding {
                        let h = Header::create(
                            "Content-Encoding".as_bytes(),
                            e.value().as_bytes(),
                        );
                        extend_bytes(&mut res, h.value().as_slice());
                    }
                }
            },
        }
        extend_bytes(&mut res, crlf_bytes().as_slice());
        if let Some(body) = &self.body {
            let wire = body.value();
            extend_bytes(&mut res, wire.as_slice());
        }
        proof {
            assert(res@ =~= spec_response_wire(old(self)@));
        }
        res
    }

    /// Replace the status, keeping the version and everything else.
    pub fn set_status(&mut self, status: HttpStatus)
        ensures
            final(self)@ == (ResponseV {
                status: StatusLine { status, version: old(self)@.status.version },
                ..old(self)@
            }),
    {
        self.status.status = status;
    }

    /// Record the encoding negotiated for the body, if any.
    pub fn set_encoding(&mut self, encoding: Option<HttpEncoding>)
        ensures
            final(self)@ == (ResponseV { encoding, ..old(self)@ }),
    {
        self.encoding = encoding;
    }
}

/// Serialization is a function of the status, the explicit headers, the
/// raw body content and the negotiated encoding alone: two responses that
/// agree on those — with no compressed rendering carried over from before
/// — serialize to byte-identical wire output.
pub proof fn lemma_wire_deterministic(r1: ResponseV, r2: ResponseV)
    requires
        r1.status == r2.status,
        r1.headers == r2.headers,
        r1.encoding == r2.encoding,
        match (r1.body, r2.body) {
            (Some(b1), Some(b2)) => b1.content == b2.content && b1.compressed is None
                && b2.compressed is None,
            (None, None) => true,
            _ => false,
        },
    ensures
        spec_response_wire(r1) == spec_response_wire(r2),
{
}

} // verus!
