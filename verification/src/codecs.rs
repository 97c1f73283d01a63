//! Format-specific decoders, one module per format.

pub mod jpeg;
