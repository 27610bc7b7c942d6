//! Composition of error sets.
//!
//! A function-like declaration may list the error kinds it can fail with.
//! From such a list this crate derives a sum type with one variant per kind,
//! the conversions between each kind and the sum type, and the declaration
//! rewritten to return the sum type.
//!
//! The crate works on a description of the declaration, the declaration unit
//! of [`tree`], and hands back descriptions of what is to be emitted. Of a
//! syntax tree it reads the attributes, in [`attribute`]; describing the rest
//! of an item and printing the result are left to the caller.

pub mod attribute;
pub mod compose;
pub mod convert;
pub mod error;
pub mod extract;
pub mod laws;
pub mod naming;
pub mod rewrite;
pub mod synth;
pub mod text;
pub mod tree;

pub use crate::compose::compose_errors;
pub use crate::error::ComposeError;
