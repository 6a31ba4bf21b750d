//! Resolution and classification of mathematical accent marks.
//!
//! The crate turns user-supplied designators (bare characters, alias
//! strings, or single-symbol content) into canonical Unicode accent
//! marks, classifies each accent as attaching above or below its base,
//! and exposes every known accent as an invocable function descriptor.

pub mod table;
pub mod accent;
pub mod classify;
pub mod registry;
pub mod cast;
pub mod laws;
