//! Rewriting of bounds-checked element accesses and validity-checked unwraps
//! into their unchecked forms, on a syntax tree of one function and under a
//! policy that the caller supplies.
//!
//! Nothing here shows that a check that was taken out could not have failed:
//! that is the caller's word.

pub mod config;
pub mod laws;
pub mod policy;
pub mod rewrite;
pub mod syntax;
pub mod text;

pub use config::{ConfigError, Token};
pub use policy::Args;
pub use rewrite::{unchecked, Context, Mode};
pub use syntax::{Block, Expr, Function, Part};
