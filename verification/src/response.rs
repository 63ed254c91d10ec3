//! A response as the middleware sees it: its header lines and its body, what
//! is read from them and how they are changed.

use crate::encoder::{encoded, get_encoder};
use crate::encoding::{last_known, last_recognized, texts, token, Encoding};
use crate::error::HeaderParseError;
use crate::levels::CompressionLevels;
use crate::policy::{Declared, ResponseEncodingState};
use tide::http::cache::{CacheControl, CacheDirective};
use tide::http::content::{self, ContentEncoding};
use tide::http::{headers, Body};
use tide::{Error, Response};
use vstd::prelude::*;

verus! {

#[verifier::external_type_specification]
#[verifier::external_body]
pub struct ExResponse(tide::Response);

#[verifier::external_type_specification]
#[verifier::external_body]
pub struct ExBody(tide::http::Body);

/// The header lines of a message: under each header's name, in lower case,
/// its values in the order in which they were added.
pub type Fields = Map<Seq<char>, Seq<Seq<char>>>;

/// The header lines that a response carries.
pub uninterp spec fn response_headers(res: Response) -> Fields;

/// The body that a response carries.
pub uninterp spec fn response_body(res: Response) -> Body;

/// What a response carries besides its header lines and its body (its
/// status, its version and the like), as the response that is left when the
/// header lines and the body are taken away.
pub uninterp spec fn response_frame(res: Response) -> Response;

/// The length that a body declares, where it declares one.
pub uninterp spec fn body_len(body: Body) -> Option<usize>;

/// What the parser of `Cache-Control` makes of a header's values: `None` where
/// it fails, else for each directive that it knows, in order, whether the
/// directive is `no-transform`.
pub uninterp spec fn cache_directives(values: Seq<Seq<char>>) -> Option<Seq<bool>>;

/// What `Cache-Control` says of changing the body: `None` where the header is
/// malformed, else whether one of its directives is `no-transform`.
pub open spec fn no_transform(fields: Fields) -> Option<bool> {
    if !fields.contains_key("cache-control"@) {
        Some(false)
    } else {
        match cache_directives(fields["cache-control"@]) {
            Some(flags) => Some(flags.contains(true)),
            None => None,
        }
    }
}

/// What `Content-Encoding` declares: where the header is there, the coding
/// that its last value with a known name gives.
pub open spec fn declared_coding(fields: Fields) -> Declared {
    if !fields.contains_key("content-encoding"@) {
        Declared::Absent
    } else {
        match last_recognized(fields["content-encoding"@]) {
            Some(encoding) => Declared::Known(encoding),
            None => Declared::Unknown,
        }
    }
}

/// What a response says of its own encoding; `None` where its
/// `Cache-Control` is malformed.
pub open spec fn encoding_state(res: Response) -> Option<ResponseEncodingState> {
    match no_transform(response_headers(res)) {
        Some(forbidden) => Some(
            ResponseEncodingState {
                no_transform: forbidden,
                coding: declared_coding(response_headers(res)),
                body_len: body_len(response_body(res)),
            },
        ),
        None => None,
    }
}

/// The fields with `accept-encoding` added to `Vary`, behind the values that
/// the header already has.
pub open spec fn with_vary(fields: Fields) -> Fields {
    let before = if fields.contains_key("vary"@) {
        fields["vary"@]
    } else {
        seq![]
    };
    fields.insert("vary"@, before.push("accept-encoding"@))
}

/// The fields with the content type of a plain byte stream, where they have
/// no content type.
pub open spec fn with_content_type(fields: Fields) -> Fields {
    if fields.contains_key("content-type"@) {
        fields
    } else {
        fields.insert("content-type"@, seq!["application/octet-stream"@])
    }
}

/// The fields of a response that was compressed with `encoding`: the content
/// type settled, `Content-Encoding` set to the one coding, and no
/// `Content-Length`.
pub open spec fn with_coding(fields: Fields, encoding: Encoding) -> Fields {
    with_content_type(fields).insert("content-encoding"@, seq![token(encoding)]).remove(
        "content-length"@,
    )
}

/// Calls `CacheControl::from_headers` on the response and walks the
/// directives. The claim: without a `Cache-Control` header the result is
/// `Ok(None)`; with one, the parser's outcome depends on the header's values
/// alone.
#[verifier::external_body]
fn no_transform_flags(res: &Response) -> (r: Result<Option<Vec<bool>>, Error>)
    ensures
        !response_headers(*res).contains_key("cache-control"@) ==> r matches Ok(None),
        response_headers(*res).contains_key("cache-control"@) ==> match cache_directives(
            response_headers(*res)["cache-control"@],
        ) {
            Some(flags) => r matches Ok(Some(v)) && v@ == flags,
            None => r is Err,
        },
{
    match CacheControl::from_headers(res) {
        Ok(Some(control)) => Ok(Some(
            control.iter().map(|d| matches!(d, CacheDirective::NoTransform)).collect(),
        )),
        Ok(None) => Ok(None),
        Err(e) => Err(e),
    }
}

/// Calls `Response::header` for `Content-Encoding`. The claim: the result is
/// the header's values in order, or `None` without the header.
#[verifier::external_body]
fn content_encoding_values(res: &Response) -> (r: Option<Vec<String>>)
    ensures
        match r {
            Some(values) => response_headers(*res).contains_key("content-encoding"@) && texts(
                values@,
            ) == response_headers(*res)["content-encoding"@],
            None => !response_headers(*res).contains_key("content-encoding"@),
        },
{
    res.header(headers::CONTENT_ENCODING).map(
        |values| values.iter().map(|value| value.as_str().to_string()).collect(),
    )
}

/// Calls `Response::len`. The claim: the result is the length that the
/// response's body declares.
#[verifier::external_body]
fn declared_len(res: &Response) -> (r: Option<usize>)
    ensures
        r == body_len(response_body(*res)),
{
    res.len()
}

/// Calls `Response::append_header` with `Vary` and `accept-encoding`. The
/// claim: the value is added behind those that the header has, or the header
/// is made with this one value; nothing else changes.
#[verifier::external_body]
pub(crate) fn append_vary(res: &mut Response)
    ensures
        response_headers(*final(res)) == with_vary(response_headers(*old(res))),
        response_body(*final(res)) == response_body(*old(res)),
        response_frame(*final(res)) == response_frame(*old(res)),
{
    res.append_header(headers::VARY, headers::ACCEPT_ENCODING.as_str());
}

/// Calls `Response::take_body`. The claim: the body comes out and an empty
/// one stays; a response without a content type gets that of a plain byte
/// stream; no other header changes.
#[verifier::external_body]
fn take_body(res: &mut Response) -> (r: Body)
    ensures
        r == response_body(*old(res)),
        body_len(response_body(*final(res))) == Some(0usize),
        response_headers(*final(res)) == with_content_type(response_headers(*old(res))),
        response_frame(*final(res)) == response_frame(*old(res)),
{
    res.take_body()
}

/// Calls `Response::set_body`. The claim: `body` becomes the response's body;
/// the content type stays where there is one, and every other header stays.
#[verifier::external_body]
fn set_body(res: &mut Response, body: Body)
    ensures
        response_body(*final(res)) == body,
        response_headers(*final(res)).remove("content-type"@) == response_headers(
            *old(res),
        ).remove("content-type"@),
        response_headers(*old(res)).contains_key("content-type"@) ==> response_headers(
            *final(res),
        ) == response_headers(*old(res)),
        response_frame(*final(res)) == response_frame(*old(res)),
{
    res.set_body(body);
}

/// Calls `ContentEncoding::apply` for `encoding`. The claim: the response's
/// `Content-Encoding` becomes the coding's name alone; nothing else changes.
#[verifier::external_body]
fn set_content_encoding(res: &mut Response, encoding: Encoding)
    ensures
        response_headers(*final(res)) == response_headers(*old(res)).insert(
            "content-encoding"@,
            seq![token(encoding)],
        ),
        response_body(*final(res)) == response_body(*old(res)),
        response_frame(*final(res)) == response_frame(*old(res)),
{
    let coding = match encoding {
        Encoding::Gzip => content::Encoding::Gzip,
        Encoding::Deflate => content::Encoding::Deflate,
        Encoding::Brotli => content::Encoding::Brotli,
        Encoding::Zstd => content::Encoding::Zstd,
        Encoding::Identity => content::Encoding::Identity,
    };
    ContentEncoding::new(coding).apply(res);
}

/// Calls `Response::remove_header` for `Content-Length`. The claim: that
/// header is gone and nothing else changes.
#[verifier::external_body]
fn remove_content_length(res: &mut Response)
    ensures
        response_headers(*final(res)) == response_headers(*old(res)).remove("content-length"@),
        response_body(*final(res)) == response_body(*old(res)),
        response_frame(*final(res)) == response_frame(*old(res)),
{
    res.remove_header(headers::CONTENT_LENGTH);
}

/// Whether one of the directives is `no-transform`, given for each directive
/// whether it is.
pub fn lists_no_transform(flags: &Vec<bool>) -> (r: bool)
    ensures
        r == flags@.contains(true),
{
    let mut i: usize = 0;
    while i < flags.len()
        invariant
            i <= flags.len(),
            forall|j: int| 0 <= j < i ==> !flags@[j],
        decreases flags.len() - i,
    {
        if flags[i] {
            assert(flags@[i as int] == true);
            return true;
        }
        i += 1;
    }
    false
}

/// Whether the response's `Cache-Control` forbids changing the body.
pub fn forbids_transform(res: &Response) -> (r: Result<bool, HeaderParseError>)
    ensures
        match no_transform(response_headers(*res)) {
            Some(forbidden) => r matches Ok(b) && b == forbidden,
            None => r matches Err(e) && e is CacheControl,
        },
{
    match no_transform_flags(res) {
        Err(e) => Err(HeaderParseError::CacheControl(e)),
        Ok(None) => Ok(false),
        Ok(Some(flags)) => Ok(lists_no_transform(&flags)),
    }
}

/// What the response's `Content-Encoding` declares.
pub fn existing_coding(res: &Response) -> (r: Declared)
    ensures
        r == declared_coding(response_headers(*res)),
{
    match content_encoding_values(res) {
        None => Declared::Absent,
        Some(values) => match last_known(&values) {
            Some(encoding) => Declared::Known(encoding),
            None => Declared::Unknown,
        },
    }
}

/// Reads what the response says of its own encoding. A malformed
/// `Cache-Control` is the one thing that makes this fail.
pub fn read_state(res: &Response) -> (r: Result<ResponseEncodingState, HeaderParseError>)
    ensures
        match encoding_state(*res) {
            Some(state) => r matches Ok(s) && s == state,
            None => r matches Err(e) && e is CacheControl,
        },
{
    match forbids_transform(res) {
        Err(e) => Err(e),
        Ok(forbidden) => Ok(
            ResponseEncodingState {
                no_transform: forbidden,
                coding: existing_coding(res),
                body_len: declared_len(res),
            },
        ),
    }
}

/// Puts the response's body behind the encoder of `encoding`, names the
/// coding in `Content-Encoding` and drops `Content-Length`, since the length
/// of what the encoder will yield is not known. With a coding that is no
/// algorithm of this library the response stays as it is.
pub fn compress_body(res: &mut Response, encoding: Encoding, levels: &CompressionLevels)
    ensures
        encoding.is_algorithm() ==> {
            &&& response_headers(*final(res)) == with_coding(response_headers(*old(res)), encoding)
            &&& response_body(*final(res)) == encoded(response_body(*old(res)), encoding, *levels)
            &&& body_len(response_body(*final(res))) is None
            &&& response_frame(*final(res)) == response_frame(*old(res))
        },
        !encoding.is_algorithm() ==> *final(res) == *old(res),
{
    if encoding.compresses() {
        let body = take_body(res);
        set_body(res, get_encoder(body, encoding, levels));
        set_content_encoding(res, encoding);
        remove_content_length(res);
    }
}

/// The names of the headers that are read and written differ from one
/// another.
pub proof fn names_differ()
    ensures
        "vary"@ != "content-encoding"@,
        "vary"@ != "content-length"@,
        "vary"@ != "content-type"@,
        "vary"@ != "cache-control"@,
        "content-encoding"@ != "content-length"@,
        "content-encoding"@ != "content-type"@,
        "content-encoding"@ != "cache-control"@,
        "content-length"@ != "content-type"@,
        "content-length"@ != "cache-control"@,
        "content-type"@ != "cache-control"@,
{
    reveal_strlit("vary");
    reveal_strlit("content-encoding");
    reveal_strlit("content-length");
    reveal_strlit("content-type");
    reveal_strlit("cache-control");
    assert("vary"@.len() == 4);
    assert("content-encoding"@.len() == 16);
    assert("content-length"@.len() == 14);
    assert("content-type"@.len() == 12);
    assert("cache-control"@.len() == 13);
}

} // verus!
