//! The closed HTTP vocabularies: methods, versions, statuses and content
//! encodings, with their wire tokens and the lenient token parsers the
//! server uses.

use vstd::prelude::*;
use vstd::string::StringSliceAdditionalSpecFns;
use crate::bytes::{bytes_eq, comma_sep, comma_sep_bytes, seq_views, spec_split, split_bytes};
use crate::header::Header;

verus! {

/// An HTTP request method.
#[derive(Debug, Clone, Copy, PartialEq, Eq, Structural)]
pub enum HttpMethod {
    Get,
    Head,
    Post,
    Put,
    Delete,
    Connect,
    Options,
    Trace,
    Patch,
}

impl HttpMethod {
    /// The wire token of this method.
    pub open spec fn spec_token(self) -> Seq<u8> {
        match self {
            HttpMethod::Get => "GET".spec_bytes(),
            HttpMethod::Head => "HEAD".spec_bytes(),
            HttpMethod::Post => "POST".spec_bytes(),
            HttpMethod::Put => "PUT".spec_bytes(),
            HttpMethod::Delete => "DELETE".spec_bytes(),
            HttpMethod::Connect => "CONNECT".spec_bytes(),
            HttpMethod::Options => "OPTIONS".spec_bytes(),
            HttpMethod::Trace => "TRACE".spec_bytes(),
            HttpMethod::Patch => "PATCH".spec_bytes(),
        }
    }

    /// The method a token names; an unknown token falls back to `Get`.
    pub open spec fn spec_from(token: Seq<u8>) -> HttpMethod {
        if token == "GET".spec_bytes() {
            HttpMethod::Get
        } else if token == "HEAD".spec_bytes() {
            HttpMethod::Head
        } else if token == "POST".spec_bytes() {
            HttpMethod::Post
        } else if token == "PUT".spec_bytes() {
            HttpMethod::Put
        } else if token == "DELETE".spec_bytes() {
            HttpMethod::Delete
        } else if token == "CONNECT".spec_bytes() {
            HttpMethod::Connect
        } else if token == "OPTIONS".spec_bytes() {
            HttpMethod::Options
        } else if token == "TRACE".spec_bytes() {
            HttpMethod::Trace
        } else if token == "PATCH".spec_bytes() {
            HttpMethod::Patch
        } else {
            HttpMethod::Get
        }
    }

    /// The wire token of this method.
    pub fn value(&self) -> (r: &'static str)
        ensures
            r.spec_bytes() == self.spec_token(),
    {
        match *self {
            HttpMethod::Get => "GET",
            HttpMethod::Head => "HEAD",
            HttpMethod::Post => "POST",
            HttpMethod::Put => "PUT",
            HttpMethod::Delete => "DELETE",
            HttpMethod::Connect => "CONNECT",
            HttpMethod::Options => "OPTIONS",
            HttpMethod::Trace => "TRACE",
            HttpMethod::Patch => "PATCH",
        }
    }

    /// Parse a method token leniently: unknown tokens fall back to `Get`.
    pub fn from_str(method: &[u8]) -> (r: HttpMethod)
        ensures
            r == HttpMethod::spec_from(method@),
    {
        if bytes_eq(method, "GET".as_bytes()) {
            HttpMethod::Get
        } else if bytes_eq(method, "HEAD".as_bytes()) {
            HttpMethod::Head
        } else if bytes_eq(method, "POST".as_bytes()) {
            HttpMethod::Post
        } else if bytes_eq(method, "PUT".as_bytes()) {
            HttpMethod::Put
        } else if bytes_eq(method, "DELETE".as_bytes()) {
            HttpMethod::Delete
        } else if bytes_eq(method, "CONNECT".as_bytes()) {
            HttpMethod::Connect
        } else if bytes_eq(method, "OPTIONS".as_bytes()) {
            HttpMethod::Options
        } else if bytes_eq(method, "TRACE".as_bytes()) {
            HttpMethod::Trace
        } else if bytes_eq(method, "PATCH".as_bytes()) {
            HttpMethod::Patch
        } else {
            HttpMethod::Get
        }
    }
}

/// An HTTP protocol version.
#[derive(Debug, Clone, Copy, PartialEq, Eq, Structural)]
pub enum HttpVersion {
    HTTP1_1,
    HTTP2,
    HTTP3,
}

impl HttpVersion {
    /// The wire token of this version.
    pub open spec fn spec_token(self) -> Seq<u8> {
        match self {
            HttpVersion::HTTP1_1 => "HTTP/1.1".spec_bytes(),
            HttpVersion::HTTP2 => "HTTP/2".spec_bytes(),
            HttpVersion::HTTP3 => "HTTP/3".spec_bytes(),
        }
    }

    /// The version a token names; an unknown token falls back to HTTP/1.1.
    pub open spec fn spec_from(token: Seq<u8>) -> HttpVersion {
        if token == "HTTP/1.1".spec_bytes() {
            HttpVersion::HTTP1_1
        } else if token == "HTTP/2".spec_bytes() {
            HttpVersion::HTTP2
        } else if token == "HTTP/3".spec_bytes() {
            HttpVersion::HTTP3
        } else {
            HttpVersion::HTTP1_1
        }
    }

    /// The wire token of this version.
    pub fn value(&self) -> (r: &'static str)
        ensures
            r.spec_bytes() == self.spec_token(),
    {
        match *self {
            HttpVersion::HTTP1_1 => "HTTP/1.1",
            HttpVersion::HTTP2 => "HTTP/2",
            HttpVersion::HTTP3 => "HTTP/3",
        }
    }

    /// Parse a version token leniently: unknown tokens fall back to HTTP/1.1.
    pub fn from_str(version: &[u8]) -> (r: HttpVersion)
        ensures
            r == HttpVersion::spec_from(version@),
    {
        if bytes_eq(version, "HTTP/1.1".as_bytes()) {
            HttpVersion::HTTP1_1
        } else if bytes_eq(version, "HTTP/2".as_bytes()) {
            HttpVersion::HTTP2
        } else if bytes_eq(version, "HTTP/3".as_bytes()) {
            HttpVersion::HTTP3
        } else {
            HttpVersion::HTTP1_1
        }
    }
}

/// A response status the server can answer with.
#[derive(Debug, Clone, Copy, PartialEq, Eq, Structural)]
pub enum HttpStatus {
    Continue,
    OK,
    Created,
    BadRequest,
    NotFound,
    MethodNotAllowed,
    InternalServerError,
    HTTPVersionNotSupported,
}

impl HttpStatus {
    /// The numeric status code.
    pub open spec fn spec_code(self) -> u16 {
        match self {
            HttpStatus::Continue => 100,
            HttpStatus::OK => 200,
            HttpStatus::Created => 201,
            HttpStatus::BadRequest => 400,
            HttpStatus::NotFound => 404,
            HttpStatus::MethodNotAllowed => 405,
            HttpStatus::InternalServerError => 500,
            HttpStatus::HTTPVersionNotSupported => 505,
        }
    }

    /// The reason phrase that accompanies the code.
    pub open spec fn spec_reason(self) -> Seq<u8> {
        match self {
            HttpStatus::Continue => "Continue".spec_bytes(),
            HttpStatus::OK => "OK".spec_bytes(),
            HttpStatus::Created => "Created".spec_bytes(),
            HttpStatus::BadRequest => "Bad Request".spec_bytes(),
            HttpStatus::NotFound => "Not Found".spec_bytes(),
            HttpStatus::MethodNotAllowed => "Method Not Allowed".spec_bytes(),
            HttpStatus::InternalServerError => "Internal Server Error".spec_bytes(),
            HttpStatus::HTTPVersionNotSupported => "HTTP Version not supported".spec_bytes(),
        }
    }

    /// The numeric code and the reason phrase.
    pub fn value(&self) -> (r: (u16, &'static str))
        ensures
            r.0 == self.spec_code(),
            r.1.spec_bytes() == self.spec_reason(),
    {
        match *self {
            HttpStatus::Continue => (100, "Continue"),
            HttpStatus::OK => (200, "OK"),
            HttpStatus::Created => (201, "Created"),
            HttpStatus::BadRequest => (400, "Bad Request"),
            HttpStatus::NotFound => (404, "Not Found"),
            HttpStatus::MethodNotAllowed => (405, "Method Not Allowed"),
            HttpStatus::InternalServerError => (500, "Internal Server Error"),
            HttpStatus::HTTPVersionNotSupported => (505, "HTTP Version not supported"),
        }
    }
}

/// A content encoding a client may ask for; only gzip is supported.
#[derive(Debug, Clone, Copy, PartialEq, Eq, Structural)]
pub enum HttpEncoding {
    Gzip,
    Compress,
    Deflate,
    Identity,
    Br,
}

impl HttpEncoding {
    /// The wire token of this encoding.
    pub open spec fn spec_token(self) -> Seq<u8> {
        match self {
            HttpEncoding::Gzip => "gzip".spec_bytes(),
            HttpEncoding::Compress => "compress".spec_bytes(),
            HttpEncoding::Deflate => "deflate".spec_bytes(),
            HttpEncoding::Identity => "identity".spec_bytes(),
            HttpEncoding::Br => "br".spec_bytes(),
        }
    }

    /// The encoding a token names, if any.
    pub open spec fn spec_from(token: Seq<u8>) -> Option<HttpEncoding> {
        if token == "gzip".spec_bytes() {
            Some(HttpEncoding::Gzip)
        } else if token == "compress".spec_bytes() {
            Some(HttpEncoding::Compress)
        } else if token == "deflate".spec_bytes() {
            Some(HttpEncoding::Deflate)
        } else if token == "identity".spec_bytes() {
            Some(HttpEncoding::Identity)
        } else if token == "br".spec_bytes() {
            Some(HttpEncoding::Br)
        } else {
            None
        }
    }

    /// The wire token of this encoding.
    pub fn value(&self) -> (r: &'static str)
        ensures
            r.spec_bytes() == self.spec_token(),
    {
        match *self {
            HttpEncoding::Gzip => "gzip",
            HttpEncoding::Compress => "compress",
            HttpEncoding::Deflate => "deflate",
            HttpEncoding::Identity => "identity",
            HttpEncoding::Br => "br",
        }
    }

    /// Whether the server actually supports this encoding.
    pub fn is_valid(&self) -> (r: bool)
        ensures
            r == (*self is Gzip),
    {
        match *self {
            HttpEncoding::Gzip => true,
            _ => false,
        }
    }

    /// Parse an encoding token.
    pub fn from_str(token: &[u8]) -> (r: Option<HttpEncoding>)
        ensures
            r == HttpEncoding::spec_from(token@),
    {
        if bytes_eq(token, "gzip".as_bytes()) {
            Some(HttpEncoding::Gzip)
        } else if bytes_eq(token, "compress".as_bytes()) {
            Some(HttpEncoding::Compress)
        } else if bytes_eq(token, "deflate".as_bytes()) {
            Some(HttpEncoding::Deflate)
        } else if bytes_eq(token, "identity".as_bytes()) {
            Some(HttpEncoding::Identity)
        } else if bytes_eq(token, "br".as_bytes()) {
            Some(HttpEncoding::Br)
        } else {
            None
        }
    }

    /// The first supported encoding among the given tokens, if any.
    pub open spec fn spec_first_valid_of(tokens: Seq<Seq<u8>>) -> Option<HttpEncoding>
        decreases tokens.len(),
    {
        if tokens.len() == 0 {
            None
        } else {
            match HttpEncoding::spec_from(tokens[0]) {
                Some(e) => if e is Gzip {
                    Some(e)
                } else {
                    HttpEncoding::spec_first_valid_of(tokens.drop_first())
                },
                None => HttpEncoding::spec_first_valid_of(tokens.drop_first()),
            }
        }
    }

    /// The encoding negotiated from an `Accept-Encoding` header value:
    /// the first token of the comma-separated list that names a supported
    /// encoding, in the order the client declared them.
    pub open spec fn spec_negotiate(value: Seq<u8>) -> Option<HttpEncoding> {
        HttpEncoding::spec_first_valid_of(spec_split(value, comma_sep()))
    }

    /// The first supported encoding in the comma-separated list carried by
    /// `header`; `None` when the client asked for nothing the server can do.
    pub fn first_valid(header: &Header) -> (r: Option<HttpEncoding>)
        ensures
            r == HttpEncoding::spec_negotiate(header@.value),
    {
        let sep = comma_sep_bytes();
        let tokens = split_bytes(header.value.as_slice(), sep.as_slice());
        let ghost all = seq_views(tokens@);
        let mut i: usize = 0;
        proof {
            assert(all.skip(0) =~= all);
        }
        while i < tokens.len()
            invariant
                i <= tokens@.len(),
                all == seq_views(tokens@),
                all == spec_split(header@.value, comma_sep()),
                HttpEncoding::spec_first_valid_of(all) == HttpEncoding::spec_first_valid_of(
                    all.skip(i as int),
                ),
            decreases tokens@.len() - i,
        {
            proof {
                assert(all.skip(i as int)[0] == tokens@[i as int]@);
                assert(all.skip(i as int).drop_first() =~= all.skip(i + 1));
            }
            match HttpEncoding::from_str(tokens[i].as_slice()) {
                Some(e) => {
                    if e.is_valid() {
                        proof {
                            assert(HttpEncoding::spec_first_valid_of(all.skip(i as int))
                                == Some(e));
                        }
                        return Some(e);
                    }
                },
                None => {},
            }
            i += 1;
        }
        proof {
            assert(all.skip(i as int) =~= Seq::<Seq<u8>>::empty());
        }
        None
    }
}

} // verus!
