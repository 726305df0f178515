//! The patterns that classify what the tables do not hold: numbers, string
//! literals and identifiers.

use vstd::prelude::*;
use crate::lexical_analysis::token::TokenType;

verus! {

/// A pattern and the kind of token that a text matching it is.
pub struct RegexToken {
    pub regex_template: &'static str,
    pub token_type: TokenType,
}

/// An optional sign and decimal digits.
pub const NUMBER_PATTERN: &'static str = "^[+-]?[0-9]+$";

/// Two double quotes with no double quote between them.
pub const STRING_PATTERN: &'static str = "^\"[^\"]*\"$";

/// Letters and underscores.
pub const ID_PATTERN: &'static str = "^[a-zA-Z_]+$";

impl RegexToken {
    pub fn new(regex_template: &'static str, token_type: TokenType) -> (rt: Self)
        ensures
            rt.regex_template@ == regex_template@,
            rt.token_type == token_type,
    {
        RegexToken { regex_template, token_type }
    }
}

/// The three patterns, in the order in which they are tried.
pub fn regex_token_map() -> (map: [RegexToken; 3])
    ensures
        map[0].regex_template@ == NUMBER_PATTERN@,
        map[0].token_type == TokenType::NUMBER,
        map[1].regex_template@ == STRING_PATTERN@,
        map[1].token_type == TokenType::STRING,
        map[2].regex_template@ == ID_PATTERN@,
        map[2].token_type == TokenType::ID,
{
    [
        RegexToken::new(NUMBER_PATTERN, TokenType::NUMBER),
        RegexToken::new(STRING_PATTERN, TokenType::STRING),
        RegexToken::new(ID_PATTERN, TokenType::ID),
    ]
}

/// The verdict of the `regex` crate on one of the three patterns and a text:
/// `None` where the pattern does not compile, and otherwise whether it
/// matches somewhere in the text.
pub uninterp spec fn regex_match(pattern: Seq<char>, text: Seq<char>) -> Option<bool>;

/// `regex::Regex::new` on `pattern` and, where that succeeds,
/// `regex::Regex::is_match` on `text`, for the three patterns of this module.
/// On them both depend on their arguments alone, so the outcome is given the
/// name [`regex_match`]; nothing more is claimed of it.
#[verifier::external_body]
pub(crate) fn regex_is_match(pattern: &str, text: &str) -> (r: Option<bool>)
    requires
        pattern@ == NUMBER_PATTERN@ || pattern@ == STRING_PATTERN@ || pattern@ == ID_PATTERN@,
    ensures
        r == regex_match(pattern@, text@),
{
    match regex::Regex::new(pattern) {
        Ok(regex) => Some(regex.is_match(text)),
        Err(_) => None,
    }
}

} // verus!
