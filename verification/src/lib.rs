//! Execution core of a small interpreted language: a value model, a
//! lexically scoped closure-capable environment, a tree-walking evaluator
//! with control-flow signals, and an independent flow-sensitive type checker.
//!
//! The core consumes an already parsed, position-tagged statement tree; it
//! never sees source text. Parsing and the command-line front end live
//! outside this crate.

pub mod ast;
pub mod ast_walk_interpreter;
pub mod builtins;
pub mod environment;
pub mod operations;
pub mod render;
pub mod runtime;
pub mod typechecker;
pub mod value;
