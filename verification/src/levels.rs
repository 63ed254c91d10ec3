//! The compression level of each algorithm.

use crate::encoding::Level;
use vstd::prelude::*;

verus! {

/// The configured compression level for all available compression algorithms.
#[derive(Clone, Copy, Debug, PartialEq, Eq, Structural)]
pub struct CompressionLevels {
    pub brotli: Level,
    pub gzip: Level,
    pub deflate: Level,
}

impl CompressionLevels {
    /// The configuration with `level` for every algorithm.
    pub open spec fn uniform(level: Level) -> Self {
        CompressionLevels { brotli: level, gzip: level, deflate: level }
    }

    /// Creates a new compression level configuration with the same level set
    /// for all available compression algorithms.
    pub fn all(level: Level) -> (r: Self)
        ensures
            r == Self::uniform(level),
    {
        CompressionLevels { brotli: level, gzip: level, deflate: level }
    }
}

impl Default for CompressionLevels {
    /// Each algorithm at the level that it picks itself.
    fn default() -> (r: Self)
        ensures
            r == Self::uniform(Level::Default),
    {
        CompressionLevels { brotli: Level::Default, gzip: Level::Default, deflate: Level::Default }
    }
}

} // verus!
