//! Bodies that compress as they are read.

use crate::encoding::{Encoding, Level};
use crate::levels::CompressionLevels;
use crate::response::body_len;
use async_compression::futures::bufread::{BrotliEncoder, DeflateEncoder, GzipEncoder};
use futures_lite::io::BufReader;
use tide::http::Body;
use vstd::prelude::*;

verus! {

/// The body that reads `body` through a Brotli encoder at `level`.
pub uninterp spec fn brotli_encoded(body: Body, level: Level) -> Body;

/// The body that reads `body` through a Gzip encoder at `level`.
pub uninterp spec fn gzip_encoded(body: Body, level: Level) -> Body;

/// The body that reads `body` through a Deflate encoder at `level`.
pub uninterp spec fn deflate_encoded(body: Body, level: Level) -> Body;

/// The body that carries `body` in `encoding`: one that reads it through the
/// algorithm's encoder, at the level set for that algorithm, or `body` itself
/// where `encoding` is no algorithm of this library.
pub open spec fn encoded(body: Body, encoding: Encoding, levels: CompressionLevels) -> Body {
    match encoding {
        Encoding::Brotli => brotli_encoded(body, levels.brotli),
        Encoding::Gzip => gzip_encoded(body, levels.gzip),
        Encoding::Deflate => deflate_encoded(body, levels.deflate),
        _ => body,
    }
}

/// Calls `BrotliEncoder::with_quality` on `body` and makes a body of the
/// buffered encoder with `Body::from_reader`. The claim: the result depends on
/// `body` and `level` alone, and declares no length.
#[verifier::external_body]
fn brotli_body(body: Body, level: Level) -> (r: Body)
    ensures
        r == brotli_encoded(body, level),
        body_len(r) is None,
{
    let quality = match level {
        Level::Fastest => async_compression::Level::Fastest,
        Level::Best => async_compression::Level::Best,
        Level::Default => async_compression::Level::Default,
        Level::Precise(q) => async_compression::Level::Precise(q),
    };
    Body::from_reader(BufReader::new(BrotliEncoder::with_quality(body, quality)), None)
}

/// Calls `GzipEncoder::with_quality` on `body` and makes a body of the
/// buffered encoder with `Body::from_reader`. The claim: the result depends on
/// `body` and `level` alone, and declares no length.
#[verifier::external_body]
fn gzip_body(body: Body, level: Level) -> (r: Body)
    ensures
        r == gzip_encoded(body, level),
        body_len(r) is None,
{
    let quality = match level {
        Level::Fastest => async_compression::Level::Fastest,
        Level::Best => async_compression::Level::Best,
        Level::Default => async_compression::Level::Default,
        Level::Precise(q) => async_compression::Level::Precise(q),
    };
    Body::from_reader(BufReader::new(GzipEncoder::with_quality(body, quality)), None)
}

/// Calls `DeflateEncoder::with_quality` on `body` and makes a body of the
/// buffered encoder with `Body::from_reader`. The claim: the result depends on
/// `body` and `level` alone, and declares no length.
#[verifier::external_body]
fn deflate_body(body: Body, level: Level) -> (r: Body)
    ensures
        r == deflate_encoded(body, level),
        body_len(r) is None,
{
    let quality = match level {
        Level::Fastest => async_compression::Level::Fastest,
        Level::Best => async_compression::Level::Best,
        Level::Default => async_compression::Level::Default,
        Level::Precise(q) => async_compression::Level::Precise(q),
    };
    Body::from_reader(BufReader::new(DeflateEncoder::with_quality(body, quality)), None)
}

/// Returns a body made from the encoder that `encoding` names, at the level
/// set for that algorithm: the encoder reads `body` as the new body is read.
/// For a coding that is no algorithm of this library, `body` comes back as it
/// is.
pub fn get_encoder(body: Body, encoding: Encoding, levels: &CompressionLevels) -> (r: Body)
    ensures
        r == encoded(body, encoding, *levels),
        (encoding == Encoding::Brotli || encoding == Encoding::Gzip || encoding
            == Encoding::Deflate) ==> body_len(r) is None,
{
    match encoding {
        Encoding::Brotli => brotli_body(body, levels.brotli),
        Encoding::Gzip => gzip_body(body, levels.gzip),
        Encoding::Deflate => deflate_body(body, levels.deflate),
        _ => body,
    }
}

} // verus!
