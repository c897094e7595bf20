//! A generic error propagation and diagnostics framework.
//!
//! The central type is [`error::ErrorValue`]: an immutable, type-erased error
//! node that owns at most one prior error as its cause, forming a finite,
//! acyclic chain from the outermost context down to the root cause. The
//! framework offers construction of terminal errors, wrapping with further
//! context, downcasting back to a concrete payload, and a deterministic
//! line-by-line rendering of the whole chain; [`protocol`] holds the
//! propagation discipline built on top, and the remaining modules put the
//! framework to work on text replacement, argument validation, prefix
//! search and line-by-line summation.

pub mod args;
pub mod demo;
pub mod error;
pub mod laws;
pub mod protocol;
pub mod render;
pub mod replace;
pub mod sum;
pub mod table;
pub mod text;
