//! Speculative decoding: how it is configured, how a verified window is
//! judged, and how windows are scheduled.

pub mod config;
pub mod proposer;
pub mod scheduler;
pub mod scheduler_laws;
pub mod stats;
pub mod verify_window;
