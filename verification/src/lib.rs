//! Front end of a compiler for a small systems language: the tokenizer and
//! the syntax tree that a parser fills.

pub mod ast;
pub mod lexer;
