//! A verified core for a SOL (Flash Local Shared Object) viewer: the document
//! model, the version-aware tree renderer, and the per-frame message handling
//! that replaces the current document when a load finishes.

pub mod document;
pub mod render;
pub mod state;
pub mod text;
