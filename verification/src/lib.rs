//! Image-decoding front end with resource-limit enforcement.
//!
//! Untrusted binary streams are turned into raw pixel buffers while
//! defending against decompression bombs: every decoder inspects the
//! dimensions a stream declares before committing to expensive work, and
//! fails predictably when caller-supplied bounds are exceeded.

pub mod codecs;
pub mod color;
pub mod error;
pub mod limits;
pub mod metadata;

pub use color::ColorType;
pub use error::DecodingDiagnostic;
pub use error::ImageError;
pub use error::LimitErrorKind;
pub use limits::Limits;
pub use metadata::Orientation;
