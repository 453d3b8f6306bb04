//! A small WIT-style scripting language: tokens, syntax tree, lexer and parser.

pub mod ast;
pub mod lexer;
pub mod parser;
