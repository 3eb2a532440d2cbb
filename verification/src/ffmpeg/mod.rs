//! The media library, as far as it is plain values.
pub mod codec;
pub mod numbers;
