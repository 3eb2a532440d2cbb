//! The check of the host before it starts.
pub mod checks;
pub mod gpu;
pub mod nodes;
pub mod report;
