//! What the middleware keeps of a request before the request moves on.

use crate::error::HeaderParseError;
use crate::response::Fields;
use crate::select::{preferences, Preferences};
use tide::http::content::AcceptEncoding;
use tide::http::{Method, Request};
use tide::Error;
use vstd::prelude::*;

verus! {

#[verifier::external_type_specification]
#[verifier::external_body]
pub struct ExRequest(tide::http::Request);

/// The header lines that a request carries.
pub uninterp spec fn request_headers(req: Request) -> Fields;

/// Whether a request's method is `HEAD`.
pub uninterp spec fn request_is_head(req: Request) -> bool;

/// What the parser of `Accept-Encoding` makes of a header's values: `None`
/// where it fails, else the client's preferences.
pub uninterp spec fn accept_encoding(values: Seq<Seq<char>>) -> Option<Preferences>;

/// What a request says of the codings that its sender accepts: `Ok(None)`
/// without an `Accept-Encoding` header, `Err` where the header is malformed.
pub open spec fn accepted(fields: Fields) -> Result<Option<Preferences>, ()> {
    if !fields.contains_key("accept-encoding"@) {
        Ok(None)
    } else {
        match accept_encoding(fields["accept-encoding"@]) {
            Some(prefs) => Ok(Some(prefs)),
            None => Err(()),
        }
    }
}

/// The preferences that a parsed header holds, where there is one.
pub open spec fn preferences_of(accepts: Option<AcceptEncoding>) -> Option<Preferences> {
    match accepts {
        Some(a) => Some(preferences(a)),
        None => None,
    }
}

/// What is kept of a request: the response is judged by it once the request
/// itself has gone to the handler.
#[derive(Debug)]
pub struct Captured {
    /// Whether the request's method is `HEAD`: its response has no body.
    pub is_head: bool,
    /// The parsed `Accept-Encoding`, where the request has that header.
    pub accepts: Option<AcceptEncoding>,
}

/// Calls `Request::method`. The claim: the result says whether the method is
/// `HEAD`.
#[verifier::external_body]
fn method_is_head(req: &Request) -> (r: bool)
    ensures
        r == request_is_head(*req),
{
    matches!(req.method(), Method::Head)
}

/// Calls `AcceptEncoding::from_headers` on the request. The claim: without an
/// `Accept-Encoding` header the result is `Ok(None)`; with one, the parser's
/// outcome depends on the header's values alone.
#[verifier::external_body]
fn parse_accept_encoding(req: &Request) -> (r: Result<Option<AcceptEncoding>, Error>)
    ensures
        !request_headers(*req).contains_key("accept-encoding"@) ==> r matches Ok(None),
        request_headers(*req).contains_key("accept-encoding"@) ==> match accept_encoding(
            request_headers(*req)["accept-encoding"@],
        ) {
            Some(prefs) => r matches Ok(Some(a)) && preferences(a) == prefs,
            None => r is Err,
        },
{
    AcceptEncoding::from_headers(req)
}

/// Reads from a request what the response will be judged by: whether the
/// method is `HEAD`, and which codings the client accepts.
pub fn capture(req: &Request) -> (r: Result<Captured, HeaderParseError>)
    ensures
        match accepted(request_headers(*req)) {
            Ok(prefs) => r matches Ok(c) && c.is_head == request_is_head(*req) && preferences_of(
                c.accepts,
            ) == prefs,
            Err(_) => r matches Err(e) && e is AcceptEncoding,
        },
{
    let is_head = method_is_head(req);
    match parse_accept_encoding(req) {
        Ok(accepts) => Ok(Captured { is_head, accepts }),
        Err(e) => Err(HeaderParseError::AcceptEncoding(e)),
    }
}

} // verus!
