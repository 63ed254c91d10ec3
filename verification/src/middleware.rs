//! The middleware: its settings, and what it does to a response.

use crate::encoder::encoded;
use crate::encoding::Level;
use crate::error::HeaderParseError;
use crate::levels::CompressionLevels;
use crate::request::preferences_of;
use crate::policy::{decide, plan_for, Plan};
use crate::response::{
    append_vary, body_len, compress_body, encoding_state, read_state, response_body,
    response_frame, response_headers, with_coding, with_vary,
};
use crate::select::{select, selection, Codecs, Preferences};
use tide::http::content::AcceptEncoding;
use tide::Response;
use vstd::prelude::*;

verus! {

/// The least body size, in bytes, from which a response is compressed unless
/// another size is set.
pub const THRESHOLD: usize = 1024;

/// What a middleware was made with.
pub struct Settings {
    /// The least declared body size, in bytes, that is compressed.
    pub threshold: usize,
    /// The level of each algorithm.
    pub levels: CompressionLevels,
    /// The algorithms that the middleware may use.
    pub codecs: Codecs,
}

/// A middleware for compressing response body data.
#[derive(Clone, Copy, Debug)]
pub struct CompressMiddleware {
    threshold: usize,
    levels: CompressionLevels,
    codecs: Codecs,
}

impl View for CompressMiddleware {
    type V = Settings;

    closed spec fn view(&self) -> Settings {
        Settings { threshold: self.threshold, levels: self.levels, codecs: self.codecs }
    }
}

/// The settings of a middleware that was made without any: the default
/// threshold, every algorithm at its own default level, and all algorithms.
pub open spec fn default_settings() -> Settings {
    Settings {
        threshold: THRESHOLD,
        levels: CompressionLevels::uniform(Level::Default),
        codecs: Codecs::every(),
    }
}

/// What is done to the response `res` to a request whose method is `HEAD`
/// or not and whose sender stated `prefs`; `None` where the response's
/// `Cache-Control` is malformed, for which an error is owed. The response to a
/// `HEAD` request, and to one without `Accept-Encoding`, is not looked at.
pub open spec fn outcome(
    settings: Settings,
    is_head: bool,
    prefs: Option<Preferences>,
    res: Response,
) -> Option<Plan> {
    if is_head || prefs is None {
        Some(Plan::Forward)
    } else {
        match encoding_state(res) {
            Some(state) => Some(
                plan_for(state, settings.threshold, selection(prefs->0, settings.codecs)),
            ),
            None => None,
        }
    }
}

/// Whether `out` is what `owed` asks for, given the response `res`.
pub open spec fn fulfils(
    owed: Option<Plan>,
    levels: CompressionLevels,
    res: Response,
    out: Result<Response, HeaderParseError>,
) -> bool {
    match owed {
        None => out matches Err(e) && e is CacheControl,
        Some(Plan::Reject) => out matches Err(e) && e is ContentEncoding,
        Some(Plan::Forward) => out matches Ok(r) && r == res,
        Some(Plan::Mark) => out matches Ok(r) && {
            &&& response_frame(r) == response_frame(res)
            &&& response_headers(r) == with_vary(response_headers(res))
            &&& response_body(r) == response_body(res)
        },
        Some(Plan::Compress(encoding)) => out matches Ok(r) && {
            &&& response_frame(r) == response_frame(res)
            &&& response_headers(r) == with_coding(with_vary(response_headers(res)), encoding)
            &&& response_body(r) == encoded(response_body(res), encoding, levels)
            &&& body_len(response_body(r)) is None
        },
    }
}

impl Default for CompressMiddleware {
    /// A middleware with the default threshold and levels, and all algorithms.
    fn default() -> (r: Self)
        ensures
            r@ == default_settings(),
    {
        CompressMiddleware {
            threshold: THRESHOLD,
            levels: CompressionLevels::default(),
            codecs: Codecs::all(),
        }
    }
}

impl CompressMiddleware {
    /// Creates a new CompressMiddleware.
    ///
    /// Uses the default minimum body size threshold (1024 bytes) and compression levels.
    pub fn new() -> (r: Self)
        ensures
            r@ == default_settings(),
    {
        CompressMiddleware {
            threshold: THRESHOLD,
            levels: CompressionLevels::default(),
            codecs: Codecs::all(),
        }
    }

    /// Creates a new CompressMiddleware with a custom minimum body size threshold.
    ///
    /// Uses the default compression levels.
    pub fn with_threshold(threshold: usize) -> (r: Self)
        ensures
            r@ == (Settings { threshold, ..default_settings() }),
    {
        CompressMiddleware {
            threshold,
            levels: CompressionLevels::default(),
            codecs: Codecs::all(),
        }
    }

    /// Creates a new CompressMiddleware with custom compression levels.
    ///
    /// Uses the default minimum body size threshold (1024 bytes).
    pub fn with_levels(levels: CompressionLevels) -> (r: Self)
        ensures
            r@ == (Settings { levels, ..default_settings() }),
    {
        CompressMiddleware { threshold: THRESHOLD, levels, codecs: Codecs::all() }
    }

    /// Creates a new CompressMiddleware with a custom minimum body size threshold and compression
    /// levels.
    pub fn with_threshold_and_levels(threshold: usize, levels: CompressionLevels) -> (r: Self)
        ensures
            r@ == (Settings { threshold, levels, codecs: Codecs::every() }),
    {
        CompressMiddleware { threshold, levels, codecs: Codecs::all() }
    }

    /// The same middleware, restricted to the algorithms of `codecs`.
    pub fn with_codecs(self, codecs: Codecs) -> (r: Self)
        ensures
            r@ == (Settings { codecs, ..self@ }),
    {
        CompressMiddleware { threshold: self.threshold, levels: self.levels, codecs }
    }

    /// The least declared body size, in bytes, that is compressed.
    pub fn threshold(&self) -> (r: usize)
        ensures
            r == self@.threshold,
    {
        self.threshold
    }

    /// The level of each algorithm.
    pub fn levels(&self) -> (r: CompressionLevels)
        ensures
            r == self@.levels,
    {
        self.levels
    }

    /// The algorithms that the middleware may use.
    pub fn codecs(&self) -> (r: Codecs)
        ensures
            r == self@.codecs,
    {
        self.codecs
    }

    /// Judges the response to a request and changes it accordingly. The
    /// request is known by what was kept of it: whether its method is `HEAD`,
    /// and its parsed `Accept-Encoding`.
    ///
    /// The response to a `HEAD` request, or to a request without
    /// `Accept-Encoding`, goes back as it came. Any other response is read,
    /// the coding is selected, and what `decide` says is done: the response
    /// goes back as it came, or with `accept-encoding` added to `Vary`, or
    /// with that and its body behind the encoder of the selected algorithm,
    /// `Content-Encoding` naming it and `Content-Length` dropped.
    pub fn respond(&self, is_head: bool, accepts: Option<AcceptEncoding>, res: Response) -> (out:
        Result<Response, HeaderParseError>)
        ensures
            fulfils(outcome(self@, is_head, preferences_of(accepts), res), self@.levels, res, out),
    {
        if is_head {
            return Ok(res);
        }
        let accepts = match accepts {
            Some(accepts) => accepts,
            None => {
                return Ok(res);
            },
        };
        let state = match read_state(&res) {
            Ok(state) => state,
            Err(e) => {
                return Err(e);
            },
        };
        let selected = select(accepts, &self.codecs);
        let mut res = res;
        match decide(&state, self.threshold, selected) {
            Plan::Forward => Ok(res),
            Plan::Reject => Err(HeaderParseError::ContentEncoding),
            Plan::Mark => {
                append_vary(&mut res);
                Ok(res)
            },
            Plan::Compress(encoding) => {
                append_vary(&mut res);
                compress_body(&mut res, encoding, &self.levels);
                Ok(res)
            },
        }
    }
}

} // verus!
