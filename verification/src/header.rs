//! A single HTTP header: a name/value pair with its wire serialization
//! `name: value\r\n`.

use vstd::prelude::*;
use crate::bytes::{crlf, header_sep, extend_bytes};

verus! {

/// One header of a request or a response.
#[derive(Debug, Clone)]
pub struct Header {
    pub name: Vec<u8>,
    pub value: Vec<u8>,
}

/// The mathematical value of a [`Header`].
pub ghost struct HeaderV {
    pub name: Seq<u8>,
    pub value: Seq<u8>,
}

impl View for Header {
    type V = HeaderV;

    open spec fn view(&self) -> HeaderV {
        HeaderV { name: self.name@, value: self.value@ }
    }
}

/// The views of a sequence of headers.
pub open spec fn header_views(hs: Seq<Header>) -> Seq<HeaderV> {
    hs.map_values(|h: Header| h@)
}

/// The wire line of one header: `name: value\r\n`.
pub open spec fn spec_header_line(h: HeaderV) -> Seq<u8> {
    h.name + header_sep() + h.value + crlf()
}

impl Header {
    /// A header with the given name and value.
    pub fn create(name: &[u8], value: &[u8]) -> (r: Header)
        ensures
            r@ == (HeaderV { name: name@, value: value@ }),
    {
        Header {
            name: vstd::slice::slice_to_vec(name),
            value: vstd::slice::slice_to_vec(value),
        }
    }

    /// The wire line of this header.
    pub fn value(&self) -> (r: Vec<u8>)
        ensures
            r@ == spec_header_line(self@),
    {
        let mut r: Vec<u8> = Vec::new();
        extend_bytes(&mut r, self.name.as_slice());
        extend_bytes(&mut r, crate::bytes::header_sep_bytes().as_slice());
        extend_bytes(&mut r, self.value.as_slice());
        extend_bytes(&mut r, crate::bytes::crlf_bytes().as_slice());
        r
    }
}

} // verus!
