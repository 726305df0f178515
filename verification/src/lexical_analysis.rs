//! Lexical analysis: token kinds, the classification tables and the lexer.

pub mod comparators;
pub mod jv_types;
pub mod keyword;
pub mod lex;
pub mod operators;
pub mod regex_token;
pub mod symbols;
pub mod token;
