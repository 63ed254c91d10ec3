//! What can go wrong while a request or a response is read.

use tide::Error;
use vstd::prelude::*;

verus! {

#[verifier::external_type_specification]
#[verifier::external_body]
pub struct ExError(tide::Error);

/// A header that the decision needs could not be read.
#[derive(Debug)]
pub enum HeaderParseError {
    /// The request's `Accept-Encoding` is malformed; the parser's own error is inside.
    AcceptEncoding(Error),
    /// The response's `Cache-Control` is malformed; the parser's own error is inside.
    CacheControl(Error),
    /// The response has a `Content-Encoding` that names no known coding.
    ContentEncoding,
}

} // verus!
