//! Name resolution and code generation for a small ownership-teaching
//! language: a syntax tree goes in, a flat instruction stream for a stack
//! machine comes out.

pub mod ast;
pub mod compiler;
pub mod error;
pub mod instructions;
pub mod laws;
pub mod lowering;
pub mod scope;
