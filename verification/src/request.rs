//! Parsing raw request bytes into a structured request: the request line,
//! the headers up to the blank line, and the body, plus the round-trip law
//! for valid request lines.

use vstd::prelude::*;
use crate::body::{BodyV, HttpBody};
use crate::bytes::{
    bytes_eq, concat_from, crlf, crlf_bytes, first_match, header_sep, header_sep_bytes,
    lemma_first_match, lemma_split_join, lemma_split_nonempty, seq_views, sp, sp_bytes,
    spec_concat, spec_join, spec_split, split_bytes, extend_bytes, find_first_match,
};
use crate::header::{Header, HeaderV, header_views};
use crate::http::{HttpMethod, HttpVersion};

verus! {

/// Why a request buffer was rejected.
#[derive(Debug, Clone, Copy, PartialEq, Eq, Structural)]
pub enum ParseError {
    /// The first line has fewer than three space-separated tokens.
    MalformedRequestLine,
    /// A header line carries no `": "` separator.
    MalformedHeader,
}

/// The first line of a request: method, target and version.
#[derive(Debug)]
pub struct RequestLine {
    pub method: HttpMethod,
    pub target: Vec<u8>,
    pub version: HttpVersion,
}

/// The mathematical value of a [`RequestLine`].
pub ghost struct RequestLineV {
    pub method: HttpMethod,
    pub target: Seq<u8>,
    pub version: HttpVersion,
}

impl View for RequestLine {
    type V = RequestLineV;

    open spec fn view(&self) -> RequestLineV {
        RequestLineV { method: self.method, target: self.target@, version: self.version }
    }
}

/// The request line a raw line parses to: the first three space-separated
/// tokens name the method, the target and the version; fewer than three
/// tokens make the line malformed, and extra tokens are ignored.
pub open spec fn spec_parse_request_line(line: Seq<u8>) -> Option<RequestLineV> {
    let toks = spec_split(line, sp());
    if toks.len() < 3 {
        None
    } else {
        Some(
            RequestLineV {
                method: HttpMethod::spec_from(toks[0]),
                target: toks[1],
                version: HttpVersion::spec_from(toks[2]),
            },
        )
    }
}

/// The wire form of a request line: `method SP target SP version`.
pub open spec fn spec_request_line_bytes(rl: RequestLineV) -> Seq<u8> {
    rl.method.spec_token() + sp() + rl.target + sp() + rl.version.spec_token()
}

impl RequestLine {
    /// Parse the first line of a request.
    pub fn create(line: &[u8]) -> (r: Result<RequestLine, ParseError>)
        ensures
            match spec_parse_request_line(line@) {
                Some(rl) => r matches Ok(x) && x@ == rl,
                None => r matches Err(e) && e == ParseError::MalformedRequestLine,
            },
    {
        let sep = sp_bytes();
        let toks = split_bytes(line, sep.as_slice());
        if toks.len() < 3 {
            return Err(ParseError::MalformedRequestLine);
        }
        proof {
            assert(seq_views(toks@)[0] == toks@[0]@);
            assert(seq_views(toks@)[1] == toks@[1]@);
            assert(seq_views(toks@)[2] == toks@[2]@);
        }
        let method = HttpMethod::from_str(toks[0].as_slice());
        let target = vstd::slice::slice_to_vec(toks[1].as_slice());
        let version = HttpVersion::from_str(toks[2].as_slice());
        Ok(RequestLine { method, target, version })
    }

    /// The wire form of this request line.
    pub fn value(&self) -> (r: Vec<u8>)
        ensures
            r@ == spec_request_line_bytes(self@),
    {
        let mut r: Vec<u8> = Vec::new();
        extend_bytes(&mut r, self.method.value().as_bytes());
        extend_bytes(&mut r, sp_bytes().as_slice());
        extend_bytes(&mut r, self.target.as_slice());
        extend_bytes(&mut r, sp_bytes().as_slice());
        extend_bytes(&mut r, self.version.value().as_bytes());
        r
    }
}

/// A parsed request: request line, headers (absent when none were sent)
/// and body (absent when empty).
#[derive(Debug)]
pub struct Request {
    pub req_line: RequestLine,
    pub headers: Option<Vec<Header>>,
    pub body: Option<HttpBody>,
}

/// The mathematical value of a [`Request`].
pub ghost struct RequestV {
    pub req_line: RequestLineV,
    pub headers: Option<Seq<HeaderV>>,
    pub body: Option<BodyV>,
}

impl View for Request {
    type V = RequestV;

    open spec fn view(&self) -> RequestV {
        RequestV {
            req_line: self.req_line@,
            headers: match self.headers {
                Some(ref hs) => Some(header_views(hs@)),
                None => None,
            },
            body: match self.body {
                Some(ref b) => Some(b@),
                None => None,
            },
        }
    }
}

/// Parse the lines after the request line: headers until the blank line
/// that ends them (each must carry `": "`), then the remaining lines,
/// which belong to the body.
pub open spec fn spec_parse_headers(lines: Seq<Seq<u8>>) -> Result<
    (Seq<HeaderV>, Seq<Seq<u8>>),
    ParseError,
>
    decreases lines.len(),
{
    if lines.len() == 0 {
        Ok((Seq::empty(), Seq::empty()))
    } else if lines[0].len() == 0 {
        Ok((Seq::empty(), lines.drop_first()))
    } else {
        match first_match(lines[0], header_sep()) {
            None => Err(ParseError::MalformedHeader),
            Some(i) => match spec_parse_headers(lines.drop_first()) {
                Err(e) => Err(e),
                Ok(p) => Ok(
                    (
                        seq![
                            HeaderV {
                                name: lines[0].subrange(0, i),
                                value: lines[0].subrange(i + 2, lines[0].len() as int),
                            },
                        ] + p.0,
                        p.1,
                    ),
                ),
            },
        }
    }
}

/// The request a raw buffer parses to.  The buffer is split on CRLF; the
/// first line is the request line, the following lines are headers up to a
/// blank line, and the lines after the blank line are joined into the body
/// with the line breaks dropped rather than reinserted.  Empty header and
/// body sections are absent rather than empty.
pub open spec fn spec_parse(buf: Seq<u8>) -> Result<RequestV, ParseError> {
    let lines = spec_split(buf, crlf());
    match spec_parse_request_line(lines[0]) {
        None => Err(ParseError::MalformedRequestLine),
        Some(rl) => match spec_parse_headers(lines.drop_first()) {
            Err(e) => Err(e),
            Ok(p) => {
                let body = spec_concat(p.1);
                Ok(
                    RequestV {
                        req_line: rl,
                        headers: if p.0.len() == 0 {
                            None
                        } else {
                            Some(p.0)
                        },
                        body: if body.len() == 0 {
                            None
                        } else {
                            Some(BodyV { content: body, compressed: None })
                        },
                    },
                )
            },
        },
    }
}

/// The parsed headers of a tail of lines, together with what a prefix of
/// already-parsed headers contributes.
spec fn glue_headers(
    hs: Seq<HeaderV>,
    r: Result<(Seq<HeaderV>, Seq<Seq<u8>>), ParseError>,
) -> Result<(Seq<HeaderV>, Seq<Seq<u8>>), ParseError> {
    match r {
        Ok(p) => Ok((hs + p.0, p.1)),
        Err(e) => Err(e),
    }
}

/// Parse the header lines of `lines` (everything after the first line, up
/// to a blank line); on success also return the index of the first body
/// line.
fn parse_header_lines(lines: &Vec<Vec<u8>>) -> (r: Result<(Vec<Header>, usize), ParseError>)
    requires
        lines@.len() >= 1,
    ensures
        match r {
            Ok(p) => {
                &&& 1 <= p.1 <= lines@.len()
                &&& spec_parse_headers(seq_views(lines@).drop_first()) == Ok::<
                    _,
                    ParseError,
                >((header_views(p.0@), seq_views(lines@).skip(p.1 as int)))
            },
            Err(e) => spec_parse_headers(seq_views(lines@).drop_first()) == Err::<
                (Seq<HeaderV>, Seq<Seq<u8>>),
                _,
            >(e),
        },
{
    let ghost views = seq_views(lines@);
    let mut headers: Vec<Header> = Vec::new();
    let mut i: usize = 1;
    proof {
        assert(views.skip(1) =~= views.drop_first());
        match spec_parse_headers(views.skip(1)) {
            Ok(p) => {
                assert(header_views(headers@) + p.0 =~= p.0);
            },
            Err(e) => {},
        }
    }
    while i < lines.len()
        invariant
            1 <= i <= lines@.len(),
            views == seq_views(lines@),
            spec_parse_headers(views.drop_first()) == glue_headers(
                header_views(headers@),
                spec_parse_headers(views.skip(i as int)),
            ),
        decreases lines@.len() - i,
    {
        proof {
            assert(views.skip(i as int)[0] == lines@[i as int]@);
            assert(views.skip(i as int).drop_first() =~= views.skip(i + 1));
        }
        let line = &lines[i];
        if line.len() == 0 {
            proof {
                assert(spec_parse_headers(views.skip(i as int)) == Ok::<_, ParseError>((
                    Seq::<HeaderV>::empty(),
                    views.skip(i + 1),
                )));
                assert(header_views(headers@) + Seq::<HeaderV>::empty() =~= header_views(
                    headers@,
                ));
            }
            return Ok((headers, i + 1));
        }
        let sep = header_sep_bytes();
        match find_first_match(line.as_slice(), sep.as_slice()) {
            None => {
                return Err(ParseError::MalformedHeader);
            },
            Some(k) => {
                proof {
                    lemma_first_match(line@, header_sep());
                }
                let name = vstd::slice::slice_subrange(line.as_slice(), 0, k);
                let value = vstd::slice::slice_subrange(line.as_slice(), k + 2, line.len());
                let ghost old_headers = headers@;
                headers.push(Header::create(name, value));
                proof {
                    let hv = HeaderV {
                        name: lines@[i as int]@.subrange(0, k as int),
                        value: lines@[i as int]@.subrange(
                            k + 2,
                            lines@[i as int]@.len() as int,
                        ),
                    };
                    assert(header_views(headers@) =~= header_views(old_headers) + seq![hv]);
                    match spec_parse_headers(views.skip(i + 1)) {
                        Ok(p) => {
                            assert(spec_parse_headers(views.skip(i as int)) == Ok::<
                                _,
                                ParseError,
                            >((seq![hv] + p.0, p.1)));
                            assert(header_views(old_headers) + (seq![hv] + p.0)
                                =~= header_views(headers@) + p.0);
                        },
                        Err(e) => {},
                    }
                }
                i += 1;
            },
        }
    }
    proof {
        assert(views.skip(i as int) =~= Seq::<Seq<u8>>::empty());
        assert(spec_parse_headers(views.skip(i as int)) == Ok::<_, ParseError>((
            Seq::<HeaderV>::empty(),
            Seq::<Seq<u8>>::empty(),
        )));
        assert(header_views(headers@) + Seq::<HeaderV>::empty() =~= header_views(headers@));
    }
    Ok((headers, lines.len()))
}

/// The first header of `hs` named `name`, if any; names compare exactly,
/// case-sensitively.
pub open spec fn spec_find_header(hs: Seq<HeaderV>, name: Seq<u8>) -> Option<HeaderV>
    decreases hs.len(),
{
    if hs.len() == 0 {
        None
    } else if hs[0].name == name {
        Some(hs[0])
    } else {
        spec_find_header(hs.drop_first(), name)
    }
}

/// The first header of the request named `name`, if any.
pub open spec fn spec_has_header(r: RequestV, name: Seq<u8>) -> Option<HeaderV> {
    match r.headers {
        Some(hs) => spec_find_header(hs, name),
        None => None,
    }
}

impl Request {
    /// Parse a raw request buffer.
    pub fn create(req: &[u8]) -> (r: Result<Request, ParseError>)
        ensures
            match spec_parse(req@) {
                Ok(m) => r matches Ok(x) && x@ == m,
                Err(e) => r matches Err(x) && x == e,
            },
    {
        let sep = crlf_bytes();
        let lines = split_bytes(req, sep.as_slice());
        proof {
            lemma_split_nonempty(req@, crlf());
            assert(seq_views(lines@)[0] == lines@[0]@);
            assert(seq_views(lines@).drop_first() =~= seq_views(lines@).skip(1));
        }
        let req_line = match RequestLine::create(lines[0].as_slice()) {
            Ok(rl) => rl,
            Err(e) => {
                return Err(e);
            },
        };
        let (headers, body_from) = match parse_header_lines(&lines) {
            Ok(p) => p,
            Err(e) => {
                return Err(e);
            },
        };
        let body = concat_from(&lines, body_from);
        let headers = if headers.len() == 0 {
            None
        } else {
            Some(headers)
        };
        let body = if body.len() == 0 {
            None
        } else {
            Some(HttpBody::create(body))
        };
        Ok(Request { req_line, headers, body })
    }

    /// The first header of this request named `query`, if any.
    pub fn has_header(&self, query: &[u8]) -> (r: Option<&Header>)
        ensures
            match r {
                Some(h) => spec_has_header(self@, query@) == Some(h@),
                None => spec_has_header(self@, query@) is None,
            },
    {
        match &self.headers {
            Some(headers) => {
                let ghost all = header_views(headers@);
                let mut i: usize = 0;
                proof {
                    assert(all.skip(0) =~= all);
                }
                while i < headers.len()
                    invariant
                        i <= headers@.len(),
                        all == header_views(headers@),
                        spec_has_header(self@, query@) == spec_find_header(
                            all.skip(i as int),
                            query@,
                        ),
                        self@.headers == Some(all),
                    decreases headers@.len() - i,
                {
                    proof {
                        assert(all.skip(i as int)[0] == headers@[i as int]@);
                        assert(all.skip(i as int).drop_first() =~= all.skip(i + 1));
                    }
                    if bytes_eq(headers[i].name.as_slice(), query) {
                        return Some(&headers[i]);
                    }
                    i += 1;
                }
                proof {
                    assert(all.skip(i as int) =~= Seq::<HeaderV>::empty());
                }
                None
            },
            None => None,
        }
    }
}

/// Parsing a valid request line and re-serializing the parsed fields gives
/// the very same bytes back.  Valid means: the line splits into exactly
/// three space-separated tokens, and the method and version tokens are
/// recognized wire tokens.
pub proof fn lemma_request_line_round_trip(line: Seq<u8>)
    requires
        spec_split(line, sp()).len() == 3,
        exists|m: HttpMethod| spec_split(line, sp())[0] == m.spec_token(),
        exists|v: HttpVersion| spec_split(line, sp())[2] == v.spec_token(),
    ensures
        spec_parse_request_line(line) matches Some(rl) && spec_request_line_bytes(rl) == line,
{
    let toks = spec_split(line, sp());
    lemma_split_join(line, sp());
    assert(toks.drop_first() =~= seq![toks[1], toks[2]]);
    assert(seq![toks[1], toks[2]].drop_first() =~= seq![toks[2]]);
    assert(spec_join(seq![toks[2]], sp()) == toks[2]);
    assert(spec_join(seq![toks[1], toks[2]], sp()) == toks[1] + sp() + toks[2]);
    assert(spec_join(toks, sp()) == toks[0] + sp() + (toks[1] + sp() + toks[2]));
    let m = choose|m: HttpMethod| toks[0] == m.spec_token();
    assert(HttpMethod::spec_from(toks[0]).spec_token() == toks[0]) by {
        match m {
            HttpMethod::Get => {},
            HttpMethod::Head => {},
            HttpMethod::Post => {},
            HttpMethod::Put => {},
            HttpMethod::Delete => {},
            HttpMethod::Connect => {},
            HttpMethod::Options => {},
            HttpMethod::Trace => {},
            HttpMethod::Patch => {},
        }
    }
    let v = choose|v: HttpVersion| toks[2] == v.spec_token();
    assert(HttpVersion::spec_from(toks[2]).spec_token() == toks[2]) by {
        match v {
            HttpVersion::HTTP1_1 => {},
            HttpVersion::HTTP2 => {},
            HttpVersion::HTTP3 => {},
        }
    }
    let rl = spec_parse_request_line(line)->Some_0;
    assert(spec_request_line_bytes(rl) =~= toks[0] + sp() + (toks[1] + sp() + toks[2]));
}

/// The request-line round trip lifted to a whole request buffer: when the
/// first CRLF-separated line of `buf` is a valid request line, parsing the
/// buffer and re-serializing the parsed request line reproduces that first
/// line exactly.
pub proof fn lemma_request_round_trip(buf: Seq<u8>)
    requires
        spec_split(spec_split(buf, crlf())[0], sp()).len() == 3,
        exists|m: HttpMethod|
            spec_split(spec_split(buf, crlf())[0], sp())[0] == m.spec_token(),
        exists|v: HttpVersion|
            spec_split(spec_split(buf, crlf())[0], sp())[2] == v.spec_token(),
    ensures
        spec_parse(buf) matches Ok(r) ==> spec_request_line_bytes(r.req_line) == spec_split(
            buf,
            crlf(),
        )[0],
{
    lemma_request_line_round_trip(spec_split(buf, crlf())[0]);
}

} // verus!
