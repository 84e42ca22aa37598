//! A response or request payload: raw bytes, together with the derived
//! gzip-compressed form once an encoding has been selected.

use std::io::Read;
use vstd::prelude::*;
use crate::http::HttpEncoding;

verus! {

/// The bytes that gzip-compressing `data` at the default compression level
/// produces.  The stream is a pure function of the input bytes: the header
/// flate2 writes carries no timestamp (its `mtime` field is zero) and a
/// fixed operating-system byte.
pub uninterp spec fn gzip_of(data: Seq<u8>) -> Seq<u8>;

/// Relies on flate2's `bufread::GzEncoder` at the default compression
/// level: reading the encoder to its end yields the gzip stream of the
/// input, a function of the input bytes alone.
#[verifier::external_body]
fn gzip(body: &Vec<u8>) -> (r: Vec<u8>)
    ensures
        r@ == gzip_of(body@),
{
    let mut buff = Vec::new();
    let mut encoder = flate2::bufread::GzEncoder::new(&body[..], flate2::Compression::default());
    let _ = encoder.read_to_end(&mut buff);
    buff
}

/// A payload: its raw content, and the compressed rendering once one has
/// been derived.
#[derive(Debug)]
pub struct HttpBody {
    pub content: Vec<u8>,
    pub compressed: Option<Vec<u8>>,
}

/// The mathematical value of an [`HttpBody`].
pub ghost struct BodyV {
    pub content: Seq<u8>,
    pub compressed: Option<Seq<u8>>,
}

impl View for HttpBody {
    type V = BodyV;

    open spec fn view(&self) -> BodyV {
        BodyV {
            content: self.content@,
            compressed: match self.compressed {
                Some(ref c) => Some(c@),
                None => None,
            },
        }
    }
}

/// The bytes this body puts on the wire: the compressed rendering when one
/// has been derived, the raw content otherwise.
pub open spec fn spec_body_wire(b: BodyV) -> Seq<u8> {
    match b.compressed {
        Some(c) => c,
        None => b.content,
    }
}

/// The body after deriving the compressed rendering for `method`: gzip
/// fills it in, any other encoding clears it.
pub open spec fn spec_body_encoded(b: BodyV, method: HttpEncoding) -> BodyV {
    BodyV {
        content: b.content,
        compressed: match method {
            HttpEncoding::Gzip => Some(gzip_of(b.content)),
            _ => None,
        },
    }
}

impl HttpBody {
    /// A body holding `content`, not yet compressed.
    pub fn create(content: Vec<u8>) -> (r: HttpBody)
        ensures
            r@ == (BodyV { content: content@, compressed: None }),
    {
        HttpBody { content, compressed: None }
    }

    /// The bytes this body puts on the wire.
    pub fn value(&self) -> (r: Vec<u8>)
        ensures
            r@ == spec_body_wire(self@),
    {
        match &self.compressed {
            Some(c) => vstd::slice::slice_to_vec(c.as_slice()),
            None => vstd::slice::slice_to_vec(self.content.as_slice()),
        }
    }

    /// The byte length of what this body puts on the wire.
    pub fn len(&self) -> (r: usize)
        ensures
            r == spec_body_wire(self@).len(),
    {
        match &self.compressed {
            Some(c) => c.len(),
            None => self.content.len(),
        }
    }

    /// Derive the compressed rendering for `method`: gzip compresses the
    /// raw content, any other encoding leaves the body uncompressed.
    pub fn encode(&mut self, method: &HttpEncoding)
        ensures
            final(self)@ == spec_body_encoded(old(self)@, *method),
    {
        self.compressed = match method {
            HttpEncoding::Gzip => Some(gzip(&self.content)),
            _ => None,
        };
    }
}

} // verus!
