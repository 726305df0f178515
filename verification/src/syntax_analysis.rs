//! Syntax analysis: scopes, the grammar and the parser.

pub mod append;
pub mod balance;
pub mod brackets;
pub mod grammar;
pub mod parser;
pub mod parser_map;
pub mod progress;
pub mod scope;
