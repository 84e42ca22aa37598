//! A minimal HTTP/1.1 protocol core, verified with Verus.
//!
//! Raw request bytes are parsed into a structured [`request::Request`],
//! routed by target path, and answered by a [`response::Response`] that
//! serializes itself back into wire bytes, optionally gzip-compressed
//! after content negotiation.  All transport and filesystem work stays
//! outside this crate: the router hands out the filesystem action it
//! needs and consumes the outcome as a plain value.

pub mod body;
pub mod bytes;
pub mod config;
pub mod header;
pub mod http;
pub mod request;
pub mod response;
pub mod router;
