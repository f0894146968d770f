//! Consistency checks on the repository's documents, workflows and crate lists.

pub mod check_laws;
pub mod ensure;
pub mod manifest;
pub mod members;
pub mod requirement_laws;
pub mod requirements;
pub mod workflow;
