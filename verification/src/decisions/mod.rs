//! Player decision system.
//!
//! This module provides:
//! - Decision specification traits and primitives (`spec` module)
//! - Context structs for the DecisionMaker trait methods (`context` module)
//! - Concrete spec implementations for different decision types (`specs` module)
//! - Reusable helper functions for common decision patterns (`helpers` module)
//!
//! The decision system is built around the `DecisionSpec` trait, which allows
//! typed, self-documenting decisions. Each decision type maps to a primitive
//! shape (select objects, select options, boolean, etc.) for UI dispatch.

pub mod context;
pub mod helpers;
pub mod laws;
pub mod spec;
pub mod specs;
