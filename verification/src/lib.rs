//! Compile-and-execute core of a small interpreted language.
//!
//! The library lowers a statement/expression tree into a flat, register-based
//! instruction stream (`codegen`), and executes such a stream against a
//! per-call register file (`engine`).  A `Scope` is the compile-time symbol
//! table and register allocator for one function body; a `Function` is either
//! an externally-provided built-in callable or an interpreter-defined function
//! (a `Scope`, its instruction stream and a declared return type).

pub mod ast;
pub mod codegen;
pub mod engine;
pub mod function;
pub mod lexer;
pub mod scope;
pub mod types;
