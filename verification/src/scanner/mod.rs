//! Scanners, which find applications that others have installed.
pub mod common;
pub mod heroic;
pub mod lutris;
pub mod steam;
