//! Front end of the Juvinil language: a lexer that turns source text into
//! tokens, and a recursive-descent parser that checks the tokens against the
//! grammar and the scoping rules while it writes the translated program.
//!
//! Every executable function is stated against a mathematical model: text is
//! a `Seq<char>`, a token is a [`lexical_analysis::token::TokenView`], and the
//! parser is a [`syntax_analysis::grammar::ParseState`] that the grammar's
//! productions map to a next state or to an error.

use vstd::prelude::*;
use crate::error::{JuvinilErrorView, JuvinilResult};
use crate::laws::lemma_lexed_tokens_are_well_formed;
use crate::lexical_analysis::lex::{spec_tokenize, tokenize};
use crate::lexical_analysis::token::tokens_view;
use crate::syntax_analysis::balance::{clean_tokens, lemma_translation_brackets_match};
use crate::syntax_analysis::brackets::brackets_match;
use crate::syntax_analysis::grammar::{MAIN_CLOSE, MAIN_OPEN, PREAMBLE, initial_state, spec_start};
use crate::syntax_analysis::parser::Parser;

pub mod error;
pub mod laws;
pub mod lexical_analysis;
pub mod syntax_analysis;
pub mod text;

verus! {

/// The translation of the program `source`, or the first error of its lexing
/// or parsing.
pub open spec fn spec_translate(source: Seq<char>) -> Result<Seq<char>, JuvinilErrorView> {
    match spec_tokenize(source) {
        Err(e) => Err(e),
        Ok(tokens) => match spec_start(initial_state(tokens)) {
            Err(failure) => Err(failure.error),
            Ok(end) => Ok(end.code),
        },
    }
}

/// Translates the program `source`: lexes it, parses it and gives the text
/// that the parser wrote.
///
/// A translation starts with the heading and holds the functions of the
/// program, followed by the rest of it inside the one entry point. Where the
/// tokens of the program are clean, its brackets match: outside string
/// literals every `{` and `(` has its closer, in nesting order.
pub fn translate(source: String) -> (r: JuvinilResult<String>)
    ensures
        match r {
            Ok(code) => {
                &&& spec_translate(source@) == Ok::<Seq<char>, JuvinilErrorView>(code@)
                &&& code@.len() > 0
                &&& exists|functions: Seq<char>, program: Seq<char>|
                    code@ == PREAMBLE@ + functions + MAIN_OPEN@ + program + MAIN_CLOSE@
                &&& clean_tokens(spec_tokenize(source@)->Ok_0) ==> brackets_match(code@)
            },
            Err(e) => spec_translate(source@) == Err::<Seq<char>, JuvinilErrorView>(e@),
        },
{
    let tokens = tokenize(source)?;
    proof {
        let lexed = tokens_view(tokens@);
        if clean_tokens(lexed) {
            lemma_lexed_tokens_are_well_formed(source@);
            if spec_start(initial_state(lexed)) is Ok {
                lemma_translation_brackets_match(lexed);
            }
        }
    }
    let mut parser = Parser::new(tokens)?;
    parser.parse()?;
    Ok(parser.emit())
}

} // verus!
