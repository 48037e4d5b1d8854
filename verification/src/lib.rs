//! Lowering of functions whose bodies are hand-written assembly text into a
//! pair of artifacts: a linkage-only declaration and an assembler compilation
//! unit with the correct per-platform prologue and epilogue directives.
//!
//! The pipeline validates the signature ([`sig`]), classifies the decorations
//! and computes the canonical symbol ([`attrs`]), validates the operands of
//! the raw-assembly invocation ([`operands`]), synthesizes the per-platform
//! directive text ([`platform`]) and assembles the two artifacts ([`naked`]).
//! The laws that hold of generation are stated and proved in [`laws`].

pub mod attrs;
pub mod laws;
pub mod model;
pub mod naked;
pub mod operands;
pub mod platform;
pub mod sig;
pub mod text;
