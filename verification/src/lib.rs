//! A recursive-descent parser for declaration fragments of an
//! attribute-annotated, statically typed language with a Rust-like surface
//! syntax: `struct`, `enum`, `trait`, `impl` and function declarations.
//!
//! The parser consumes a flat sequence of [`token::Token`] values through the
//! cursor type [`kproc_macros::KTokenStream`], builds typed syntax-tree nodes
//! (see [`rust::ast_nodes`]), and reports failures as diagnostic values
//! carrying the offending token.  Every parser is specified against a
//! mathematical model of the grammar: a family of `spec` functions over
//! sequences of token views.

pub mod diagnostic;
pub mod examples;
pub mod kdiagnostic;
pub mod kparser;
pub mod kproc_macros;
pub mod rust;
pub mod token;
