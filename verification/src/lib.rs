//! Verified core of a game-streaming host.
use vstd::prelude::*;

pub mod application;
pub mod bench;
pub mod bytes;
pub mod compositor;
pub mod config;
pub mod control;
pub mod crypto;
pub mod digest;
pub mod discovery;
pub mod ffmpeg;
pub mod healthcheck;
pub mod hexadecimal;
pub mod markup;
pub mod scanner;
pub mod service;
pub mod signed;
pub mod steam_app_id;
pub mod text;
pub mod tls;
pub mod video;
pub mod webserver;

verus! {

/// Why the host is shutting down.
#[derive(Clone, Copy, Debug, PartialEq, Eq, Structural)]
pub enum ShutdownReason {
    /// Application quit signal (Ctrl+C or SIGTERM).
    AppQuit,
    /// The HTTP web server is shutting down.
    HttpShutdown,
    /// The HTTPS web server is shutting down.
    HttpsShutdown,
    /// The RTSP server is shutting down.
    RtspShutdown,
    /// Guard token of the session manager; not a shutdown trigger.
    SessionManagerShutdown,
}

} // verus!
