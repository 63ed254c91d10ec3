//! Response compression for HTTP handlers: which coding a client and a
//! server agree on, when a response is left alone, and how its body and
//! headers change when it is compressed.
//!
//! A server keeps of each request what [`capture`] reads from it, lets its
//! handler make the response, and hands both to
//! [`CompressMiddleware::respond`]. The response comes back as it was, or
//! with `Vary` extended, or with its body behind a streaming encoder: the
//! body is never read here, only wrapped.
//!
//! The contracts speak of a message through what it carries: its header
//! lines as a map from names to values, and its body. What the parsers and
//! encoders of `http-types` and `async-compression` do is taken on trust,
//! each call in a function of its own whose comment says what is claimed.

pub mod encoder;
pub mod encoding;
pub mod error;
pub mod laws;
pub mod levels;
pub mod middleware;
pub mod policy;
pub mod request;
pub mod response;
pub mod select;

pub use encoder::get_encoder;
pub use encoding::{Encoding, Level};
pub use error::HeaderParseError;
pub use levels::CompressionLevels;
pub use middleware::{CompressMiddleware, Settings, THRESHOLD};
pub use policy::{decide, Declared, Plan, ResponseEncodingState};
pub use request::{capture, Captured};
pub use select::{select, Codecs};
