//! Front end of a small programming language: a recursive-descent parser
//! over a pre-filtered sequence of classified token pairs, producing an
//! abstract syntax tree, together with the typed value representation used
//! for literal parsing and constant default arguments.
//!
//! The tokenizer, identifier interning and all diagnostics formatting are
//! external collaborators: this crate consumes plain token pairs and hands
//! back a tree of plain values.

pub mod ast;
pub mod error;
pub mod grammar;
pub mod laws;
pub mod num;
pub mod parser;
pub mod state;
pub mod text;
pub mod token;
pub mod value;
