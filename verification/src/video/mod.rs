//! The video stream: its settings, its packets and their pacing.
pub mod dmabuf;
pub mod gso;
pub mod packets;
pub mod pacer;
pub mod settings;
