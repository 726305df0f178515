//! Everything that can go wrong between the source text and the translation.

use vstd::prelude::*;
use crate::lexical_analysis::token::{Token, TokenType, TokenView};

verus! {

/// An error of `std::io`, carried through unread.
#[verifier::external_type_specification]
#[verifier::external_body]
pub struct ExIoError(std::io::Error);

/// The failures of lexing and parsing. The first one met ends the stage it
/// occurred in; nothing is recovered from.
#[derive(Debug)]
pub enum JuvinilError {
    /// The text fits no kind of token: the text and its line.
    LexicalError(String, usize),
    /// The current token is not what the grammar asks for: the kind and the
    /// text that were expected (the text empty where any would do), the token
    /// that was found and its line.
    SyntaxError(TokenType, String, Token, usize),
    /// The variable is already declared in the innermost scope.
    DuplicateVariable(String, usize),
    /// No enclosing scope declares the variable.
    UndeclaredVariable(String, usize),
    /// The variable is read before anything was assigned to it.
    UnassignedVariable(String, usize),
    /// The function is already declared in the innermost scope.
    DuplicateFunction(String, usize),
    /// No enclosing scope declares the function.
    UndeclaredFunction(String, usize),
    /// A line whose string literal is never closed.
    UnclosedString(usize),
    /// A failure of reading the source or writing the translation.
    IoError(std::io::Error),
}

/// What a [`JuvinilError`] stands for.
pub enum JuvinilErrorView {
    LexicalError(Seq<char>, usize),
    SyntaxError(TokenType, Seq<char>, TokenView, usize),
    DuplicateVariable(Seq<char>, usize),
    UndeclaredVariable(Seq<char>, usize),
    UnassignedVariable(Seq<char>, usize),
    DuplicateFunction(Seq<char>, usize),
    UndeclaredFunction(Seq<char>, usize),
    UnclosedString(usize),
    IoError,
}

impl View for JuvinilError {
    type V = JuvinilErrorView;

    open spec fn view(&self) -> JuvinilErrorView {
        match self {
            JuvinilError::LexicalError(text, line) => JuvinilErrorView::LexicalError(text@, *line),
            JuvinilError::SyntaxError(kind, text, found, line) => JuvinilErrorView::SyntaxError(
                *kind,
                text@,
                found@,
                *line,
            ),
            JuvinilError::DuplicateVariable(name, line) => JuvinilErrorView::DuplicateVariable(
                name@,
                *line,
            ),
            JuvinilError::UndeclaredVariable(name, line) => JuvinilErrorView::UndeclaredVariable(
                name@,
                *line,
            ),
            JuvinilError::UnassignedVariable(name, line) => JuvinilErrorView::UnassignedVariable(
                name@,
                *line,
            ),
            JuvinilError::DuplicateFunction(name, line) => JuvinilErrorView::DuplicateFunction(
                name@,
                *line,
            ),
            JuvinilError::UndeclaredFunction(name, line) => JuvinilErrorView::UndeclaredFunction(
                name@,
                *line,
            ),
            JuvinilError::UnclosedString(line) => JuvinilErrorView::UnclosedString(*line),
            JuvinilError::IoError(_) => JuvinilErrorView::IoError,
        }
    }
}

/// The result of every fallible operation of this crate.
pub type JuvinilResult<T> = Result<T, JuvinilError>;

} // verus!
