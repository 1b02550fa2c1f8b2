//! Verified core of an icon code-generation pipeline: identifier
//! normalization, icon extraction, deterministic sorting, cross-package
//! aggregation, and rendering of generated source artifacts.
pub mod aggregate;
pub mod emit;
pub mod extract;
pub mod ident;
pub mod model;
pub mod order;
pub mod package;
pub mod pipeline;
pub mod sort;
