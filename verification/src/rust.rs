//! The grammar of the supported language: AST nodes, the sub-parsers for
//! each declaration kind, and the renderer.
pub mod ast;
pub mod ast_nodes;
pub mod fmt;
pub mod kcore;
pub mod kenum;
pub mod kfunc;
pub mod kimpl;
pub mod kparser;
pub mod kstruct;
pub mod rust_struct;
pub mod ktrait;
pub mod kattr;
pub mod ty;
