//! Error types for the decode pipeline.
//!
//! Every structural anomaly in a source file is fatal: a decoder either
//! returns the fully decoded value or one of these errors, never a partial
//! result.

use vstd::prelude::*;

verus! {

/// A source file could not be read at all. Produced by the unverified I/O
/// layer around this library; decoders themselves never perform I/O.
#[derive(Clone, Copy, Debug, PartialEq, Eq, Structural)]
pub enum IoError {
    /// The file does not exist at the expected path.
    NotFound,
    /// The file exists but reading it failed.
    ReadFailed,
}

/// The bytes of a source file do not match the declared format.
#[derive(Clone, Copy, Debug, PartialEq, Eq, Structural)]
pub enum FormatError {
    /// The leading magic number is not the format's constant.
    BadMagic,
    /// The declared record count differs from the caller-expected count.
    BadLength,
    /// The declared row or column count differs from the format's fixed
    /// geometry.
    BadGeometry,
    /// Fewer data bytes remain than the declared record count requires.
    TruncatedData,
    /// A label byte is outside the valid class range.
    InvalidLabel,
}

/// The caller asked for more records than the sources provide.
#[derive(Clone, Copy, Debug, PartialEq, Eq, Structural)]
pub enum ConfigError {
    /// Requested train + validation + test length exceeds the available
    /// record count.
    LengthExceedsAvailable,
}

/// Any failure of a decode-and-assemble call.
#[derive(Clone, Copy, Debug, PartialEq, Eq, Structural)]
pub enum Error {
    /// A file could not be read.
    Io(IoError),
    /// A file's bytes are structurally wrong.
    Format(FormatError),
    /// The requested partition sizes are impossible.
    Config(ConfigError),
}

} // verus!
