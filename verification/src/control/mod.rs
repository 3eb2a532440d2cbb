//! Input that comes in over the control stream.
pub mod event;
pub mod gamepad;
pub mod remap;
pub mod touch;
