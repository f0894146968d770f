//! A pipeline stage that serves one upstream peer and, where it is not the
//! last stage, one downstream peer.

pub mod connection;
pub mod connection_laws;
pub mod connection_rules;
pub mod embedded;
pub mod errors;
pub mod forwarder;
pub mod telemetry;
pub mod trace_laws;
pub mod traces;
