//! Decision logic of a mesh of language-model nodes, with its behaviour stated
//! in contracts and proved.

pub mod attrs;
pub mod benchmark;
pub mod benchmark_laws;
pub mod checks;
pub mod decode;
pub mod document;
pub mod error_laws;
pub mod host;
pub mod json;
pub mod mesh;
pub mod names;
pub mod number;
pub mod order;
pub mod scan;
pub mod scan_laws;
pub mod stage;
pub mod text;
pub mod text_set;
pub mod view_laws;
