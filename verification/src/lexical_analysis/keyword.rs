//! The reserved words and the texts that write them.

use vstd::prelude::*;
use crate::text::str_equal;

verus! {

/// The reserved words.
#[derive(Debug, Clone, Copy, PartialEq, Eq, Structural)]
pub enum Keyword {
    FUNC,
    RETURN,
    IF,
    ELSE,
    FOR,
    WHILE,
    BREAK,
    CONTINUE,
    SWITCH,
    CASE,
    TRUE,
    FALSE,
}

/// The reserved word that `text` is.
pub open spec fn spec_keyword_of(text: Seq<char>) -> Option<Keyword> {
    if text == "func"@ {
        Some(Keyword::FUNC)
    } else if text == "return"@ {
        Some(Keyword::RETURN)
    } else if text == "if"@ {
        Some(Keyword::IF)
    } else if text == "else"@ {
        Some(Keyword::ELSE)
    } else if text == "for"@ {
        Some(Keyword::FOR)
    } else if text == "while"@ {
        Some(Keyword::WHILE)
    } else if text == "break"@ {
        Some(Keyword::BREAK)
    } else if text == "continue"@ {
        Some(Keyword::CONTINUE)
    } else if text == "switch"@ {
        Some(Keyword::SWITCH)
    } else if text == "case"@ {
        Some(Keyword::CASE)
    } else if text == "true"@ {
        Some(Keyword::TRUE)
    } else if text == "false"@ {
        Some(Keyword::FALSE)
    } else {
        None
    }
}

/// The reserved word that `text` is. The match is exact and
/// case-sensitive.
pub fn keyword_of(text: &str) -> (r: Option<Keyword>)
    ensures
        r == spec_keyword_of(text@),
{
    if str_equal(text, "func") {
        Some(Keyword::FUNC)
    } else if str_equal(text, "return") {
        Some(Keyword::RETURN)
    } else if str_equal(text, "if") {
        Some(Keyword::IF)
    } else if str_equal(text, "else") {
        Some(Keyword::ELSE)
    } else if str_equal(text, "for") {
        Some(Keyword::FOR)
    } else if str_equal(text, "while") {
        Some(Keyword::WHILE)
    } else if str_equal(text, "break") {
        Some(Keyword::BREAK)
    } else if str_equal(text, "continue") {
        Some(Keyword::CONTINUE)
    } else if str_equal(text, "switch") {
        Some(Keyword::SWITCH)
    } else if str_equal(text, "case") {
        Some(Keyword::CASE)
    } else if str_equal(text, "true") {
        Some(Keyword::TRUE)
    } else if str_equal(text, "false") {
        Some(Keyword::FALSE)
    } else {
        None
    }
}

} // verus!
