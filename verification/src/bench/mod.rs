//! The benchmark of the encoding pipeline.
pub mod matrix;
pub mod session;
pub mod stats;
