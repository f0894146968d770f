//! The runtime of a node: which models it loads and unloads, and when it
//! stops.

pub mod control_loop;
pub mod lifecycle;
pub mod lifecycle_laws;
pub mod reconcile;
pub mod unload;
