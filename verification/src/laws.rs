//! What holds of every response that the middleware hands back.
//!
//! Each law speaks of a response `res`, of what was kept of its request, and
//! of any `out` that fulfils what is owed for `res`; that is what
//! `CompressMiddleware::respond` returns.

use crate::encoder::encoded;
use crate::encoding::{token, Encoding};
use crate::error::HeaderParseError;
use crate::middleware::{fulfils, outcome, Settings};
use crate::policy::{Declared, Plan};
use crate::response::{
    body_len, declared_coding, names_differ, no_transform, response_body, response_frame,
    response_headers, with_coding, with_vary, Fields,
};
use crate::select::{selection, selection_is_offered, Codecs, Preferences};
use tide::Response;
use vstd::prelude::*;

verus! {

/// Whether `fields` list `accept-encoding` in `Vary`.
pub open spec fn varies_by_encoding(fields: Fields) -> bool {
    fields.contains_key("vary"@) && fields["vary"@].contains("accept-encoding"@)
}

/// The response to a `HEAD` request, and the response to a request without
/// `Accept-Encoding`, comes back as it went in: no header is added and the
/// body is not encoded.
pub proof fn head_and_silent_requests_pass(
    settings: Settings,
    is_head: bool,
    prefs: Option<Preferences>,
    res: Response,
    out: Result<Response, HeaderParseError>,
)
    requires
        is_head || prefs is None,
        fulfils(outcome(settings, is_head, prefs, res), settings.levels, res, out),
    ensures
        out matches Ok(r) && r == res,
{
}

/// A response with `Cache-Control: no-transform` comes back as it went in,
/// whatever the client accepts and however long the body is.
pub proof fn no_transform_passes(
    settings: Settings,
    is_head: bool,
    prefs: Option<Preferences>,
    res: Response,
    out: Result<Response, HeaderParseError>,
)
    requires
        no_transform(response_headers(res)) == Some(true),
        fulfils(outcome(settings, is_head, prefs, res), settings.levels, res, out),
    ensures
        out matches Ok(r) && r == res,
{
}

/// A body that declares a length under the threshold is not compressed: the
/// response keeps its body, its `Content-Encoding` and its `Content-Length`.
pub proof fn short_bodies_stay(
    settings: Settings,
    is_head: bool,
    prefs: Option<Preferences>,
    res: Response,
    out: Result<Response, HeaderParseError>,
)
    requires
        body_len(response_body(res)) matches Some(n) && n < settings.threshold,
        fulfils(outcome(settings, is_head, prefs, res), settings.levels, res, out),
    ensures
        out matches Ok(r) ==> keeps_the_body(res, r),
{
    names_differ();
}

/// Whether `r` has the body of `res`, and its `Content-Encoding` and
/// `Content-Length` as they are in `res`.
pub open spec fn keeps_the_body(res: Response, r: Response) -> bool {
    let before = response_headers(res);
    let after = response_headers(r);
    &&& response_body(r) == response_body(res)
    &&& response_frame(r) == response_frame(res)
    &&& after.contains_key("content-encoding"@) == before.contains_key("content-encoding"@)
    &&& after.contains_key("content-encoding"@) ==> after["content-encoding"@]
        == before["content-encoding"@]
    &&& after.contains_key("content-length"@) == before.contains_key("content-length"@)
    &&& after.contains_key("content-length"@) ==> after["content-length"@]
        == before["content-length"@]
}

/// A body that declares a length at the threshold or over it, or none at
/// all, is compressed with the selected algorithm where no other rule ends
/// the work: the request is no `HEAD` request and states preferences, the
/// response allows a transform and has no coding but `identity`, and client
/// and server agree on an algorithm.
pub proof fn long_bodies_are_compressed(
    settings: Settings,
    prefs: Preferences,
    res: Response,
    out: Result<Response, HeaderParseError>,
)
    requires
        body_len(response_body(res)) matches Some(n) ==> n >= settings.threshold,
        no_transform(response_headers(res)) == Some(false),
        declared_coding(response_headers(res)) == Declared::Absent || declared_coding(
            response_headers(res),
        ) == Declared::Known(Encoding::Identity),
        selection(prefs, settings.codecs) != Encoding::Identity,
        fulfils(outcome(settings, false, Some(prefs), res), settings.levels, res, out),
    ensures
        out matches Ok(r) && {
            let chosen = selection(prefs, settings.codecs);
            &&& chosen.is_algorithm()
            &&& response_body(r) == encoded(response_body(res), chosen, settings.levels)
            &&& response_headers(r) == with_coding(with_vary(response_headers(res)), chosen)
        },
{
    selection_is_offered(prefs, settings.codecs);
}

/// A response that already has a coding other than `identity` is not
/// compressed again: it keeps its body and its `Content-Encoding`.
pub proof fn existing_coding_is_kept(
    settings: Settings,
    is_head: bool,
    prefs: Option<Preferences>,
    res: Response,
    out: Result<Response, HeaderParseError>,
    coding: Encoding,
)
    requires
        declared_coding(response_headers(res)) == Declared::Known(coding),
        coding != Encoding::Identity,
        fulfils(outcome(settings, is_head, prefs, res), settings.levels, res, out),
    ensures
        out matches Ok(r) ==> keeps_the_body(res, r) && declared_coding(response_headers(r))
            == Declared::Known(coding),
{
    names_differ();
}

/// A middleware without algorithms never puts an encoder before a body.
pub proof fn nothing_compressed_without_codecs(
    settings: Settings,
    is_head: bool,
    prefs: Option<Preferences>,
    res: Response,
    out: Result<Response, HeaderParseError>,
)
    requires
        settings.codecs == Codecs::empty(),
        fulfils(outcome(settings, is_head, prefs, res), settings.levels, res, out),
    ensures
        out matches Ok(r) ==> keeps_the_body(res, r),
{
    names_differ();
    if prefs is Some {
        selection_is_offered(prefs->0, settings.codecs);
    }
}

/// Where a response is compressed, the coding is the one that the selector
/// gives and one of the middleware's algorithms; the response has no
/// `Content-Length`, has the one value of its coding in `Content-Encoding`,
/// and lists `accept-encoding` in `Vary`.
pub proof fn compressed_responses(
    settings: Settings,
    is_head: bool,
    prefs: Option<Preferences>,
    res: Response,
    out: Result<Response, HeaderParseError>,
)
    requires
        outcome(settings, is_head, prefs, res) matches Some(Plan::Compress(_)),
        fulfils(outcome(settings, is_head, prefs, res), settings.levels, res, out),
    ensures
        prefs is Some,
        out matches Ok(r) && {
            let chosen = selection(prefs->0, settings.codecs);
            let after = response_headers(r);
            &&& chosen.is_algorithm()
            &&& settings.codecs.has(chosen)
            &&& response_body(r) == encoded(response_body(res), chosen, settings.levels)
            &&& body_len(response_body(r)) is None
            &&& !after.contains_key("content-length"@)
            &&& after.contains_key("content-encoding"@)
            &&& after["content-encoding"@] == seq![token(chosen)]
            &&& varies_by_encoding(after)
        },
{
    names_differ();
    selection_is_offered(prefs->0, settings.codecs);
    vary_is_listed(response_headers(res));
}

/// Every response that comes back from a request that is no `HEAD` request
/// and has `Accept-Encoding`, and that does not forbid a transform, lists
/// `accept-encoding` in `Vary`, whether it was compressed or not, and keeps
/// what `Vary` listed before.
pub proof fn judged_responses_vary(
    settings: Settings,
    prefs: Preferences,
    res: Response,
    out: Result<Response, HeaderParseError>,
)
    requires
        no_transform(response_headers(res)) == Some(false),
        fulfils(outcome(settings, false, Some(prefs), res), settings.levels, res, out),
    ensures
        out matches Ok(r) ==> {
            &&& varies_by_encoding(response_headers(r))
            &&& response_headers(r)["vary"@] == with_vary(response_headers(res))["vary"@]
        },
{
    names_differ();
    vary_is_listed(response_headers(res));
}

/// Once `Vary` is extended it lists `accept-encoding`, behind what it listed
/// before.
pub proof fn vary_is_listed(fields: Fields)
    ensures
        varies_by_encoding(with_vary(fields)),
        with_vary(fields)["vary"@].last() == "accept-encoding"@,
        fields.contains_key("vary"@) ==> with_vary(fields)["vary"@].drop_last() == fields["vary"@],
{
    let values = with_vary(fields)["vary"@];
    assert(values[values.len() - 1] == "accept-encoding"@);
    if fields.contains_key("vary"@) {
        assert(values.drop_last() =~= fields["vary"@]);
    }
}

/// An error comes back exactly for a request that is no `HEAD` request and
/// has `Accept-Encoding`, whose response has a malformed `Cache-Control`, or
/// allows a transform and names no known coding in `Content-Encoding`.
pub proof fn errors_come_from_headers(
    settings: Settings,
    is_head: bool,
    prefs: Option<Preferences>,
    res: Response,
    out: Result<Response, HeaderParseError>,
)
    requires
        fulfils(outcome(settings, is_head, prefs, res), settings.levels, res, out),
    ensures
        out is Err <==> !is_head && prefs is Some && (no_transform(response_headers(res)) is None
            || (no_transform(response_headers(res)) == Some(false) && declared_coding(
            response_headers(res),
        ) is Unknown)),
        out matches Err(e) ==> (e is CacheControl <==> no_transform(response_headers(res))
            is None),
        out matches Err(e) ==> !(e is AcceptEncoding),
{
}

} // verus!
