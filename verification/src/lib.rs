//! Fluent, continuation-passing builders for a small syntax tree.
//!
//! A builder accumulates the parts of one node through chained calls and is
//! consumed by a terminal call, which assembles the node and hands it to the
//! builder's continuation. A builder that needs a child node starts the
//! child's builder with itself as the continuation, so finishing the child
//! resumes the parent.

pub mod ast;
pub mod ast_builder;
pub mod attr;
pub mod ident;
pub mod invoke;
pub mod path;
pub mod struct_field;
pub mod ty;
pub mod variant;
pub mod variant_data;

pub use crate::ast_builder::AstBuilder;
