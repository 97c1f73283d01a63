//! The error taxonomy every decoding operation reports through.

use vstd::prelude::*;

verus! {

/// Which configured bound a limits failure violated.
#[derive(Clone, Copy, Debug, PartialEq, Eq)]
pub enum LimitErrorKind {
    /// The declared width or height exceeds a configured bound.
    DimensionError,
    /// The advertised allocation exceeds a configured bound.
    InsufficientMemory,
}

/// The diagnostic a decoding failure carries.
#[derive(Clone, Debug, PartialEq, Eq)]
pub enum DecodingDiagnostic {
    /// A caller-provided buffer does not hold exactly the advertised
    /// number of bytes.
    LengthMismatch { expected: u64, actual: u64 },
    /// The stream is malformed or otherwise unusable; holds the decode
    /// engine's own diagnostic text.
    Engine(String),
}

/// Everything that can go wrong while decoding an image.
///
/// Every failure of the decode engine maps into exactly one of these
/// categories; none escapes as an untyped failure.
#[derive(Clone, Debug, PartialEq, Eq)]
pub enum ImageError {
    /// A recognized format feature the engine cannot produce; holds a
    /// description of the feature.
    Unsupported(String),
    /// A declared or advertised size exceeds a configured bound.
    Limits(LimitErrorKind),
    /// Malformed stream content, or an internal contract mismatch such
    /// as a wrongly sized output buffer.
    Decoding(DecodingDiagnostic),
    /// Failure reading the underlying byte source before decoding began.
    Io(String),
}

impl ImageError {
    /// The error raised when a caller-provided buffer holds `actual`
    /// bytes where the advertised size demands `expected`.
    pub open spec fn spec_length_mismatch(expected: int, actual: int) -> ImageError {
        ImageError::Decoding(
            (DecodingDiagnostic::LengthMismatch {
                expected: expected as u64,
                actual: actual as u64,
            }),
        )
    }
}

} // verus!
