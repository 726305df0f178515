//! The token: a kind, the text it was read from and the line it stood on.

use vstd::prelude::*;
use crate::lexical_analysis::regex_token::RegexToken;
use crate::text::{remove_char, str_equal, without_char};

verus! {

/// The kinds of token.
#[derive(Debug, Clone, Copy, PartialEq, Eq, Structural)]
pub enum TokenType {
    KEYWORD,
    OPERATOR,
    TYPE,
    SYMBOL,
    COMPARATOR,
    ID,
    STRING,
    NUMBER,
    EOF,
}

/// One lexical unit of the source.
#[derive(Debug)]
pub struct Token {
    pub token_type: TokenType,
    pub value: String,
    pub file_line: usize,
}

/// What a [`Token`] stands for: its kind, its characters and its line.
pub struct TokenView {
    pub token_type: TokenType,
    pub value: Seq<char>,
    pub file_line: usize,
}

impl View for Token {
    type V = TokenView;

    open spec fn view(&self) -> TokenView {
        TokenView { token_type: self.token_type, value: self.value@, file_line: self.file_line }
    }
}

impl Clone for Token {
    fn clone(&self) -> (r: Self)
        ensures
            r@ == self@,
    {
        Token { token_type: self.token_type, value: self.value.clone(), file_line: self.file_line }
    }
}

/// The tokens that a sequence of [`Token`] values stands for.
pub open spec fn tokens_view(tokens: Seq<Token>) -> Seq<TokenView> {
    Seq::new(tokens.len(), |i: int| tokens[i]@)
}

/// The end marker that closes every token stream.
pub open spec fn eof_token(file_line: usize) -> TokenView {
    TokenView { token_type: TokenType::EOF, value: Seq::empty(), file_line }
}

/// The keywords.
pub open spec fn is_keyword_text(text: Seq<char>) -> bool {
    ||| text == "func"@
    ||| text == "return"@
    ||| text == "if"@
    ||| text == "else"@
    ||| text == "for"@
    ||| text == "do"@
    ||| text == "while"@
    ||| text == "break"@
    ||| text == "continue"@
    ||| text == "true"@
    ||| text == "false"@
}

/// The operators.
pub open spec fn is_operator_text(text: Seq<char>) -> bool {
    ||| text == "="@
    ||| text == "+"@
    ||| text == "-"@
    ||| text == "*"@
    ||| text == "/"@
    ||| text == "%"@
    ||| text == "!"@
    ||| text == "&"@
    ||| text == "|"@
    ||| text == "++"@
    ||| text == "--"@
    ||| text == "+="@
    ||| text == "-="@
}

/// The names of the types.
pub open spec fn is_type_text(text: Seq<char>) -> bool {
    ||| text == "void"@
    ||| text == "int"@
    ||| text == "float"@
    ||| text == "boolean"@
    ||| text == "char"@
    ||| text == "string"@
}

/// The symbols.
pub open spec fn is_symbol_text(text: Seq<char>) -> bool {
    ||| text == ";"@
    ||| text == "("@
    ||| text == ")"@
    ||| text == "["@
    ||| text == "]"@
    ||| text == "{"@
    ||| text == "}"@
    ||| text == ","@
}

/// The comparators.
pub open spec fn is_comparator_text(text: Seq<char>) -> bool {
    ||| text == "&&"@
    ||| text == "||"@
    ||| text == "=="@
    ||| text == "!="@
    ||| text == "<"@
    ||| text == ">"@
    ||| text == ">="@
    ||| text == "<="@
}

/// Whether `text` is a keyword. The match is exact and case-sensitive, as it
/// is for the four tables that follow.
pub fn is_keyword(text: &str) -> (r: bool)
    ensures
        r == is_keyword_text(text@),
{
    str_equal(text, "func") || str_equal(text, "return") || str_equal(text, "if") || str_equal(
        text,
        "else",
    ) || str_equal(text, "for") || str_equal(text, "do") || str_equal(text, "while")
        || str_equal(text, "break") || str_equal(text, "continue") || str_equal(text, "true")
        || str_equal(text, "false")
}

/// Whether `text` is an operator.
pub fn is_operator(text: &str) -> (r: bool)
    ensures
        r == is_operator_text(text@),
{
    str_equal(text, "=") || str_equal(text, "+") || str_equal(text, "-") || str_equal(text, "*")
        || str_equal(text, "/") || str_equal(text, "%") || str_equal(text, "!") || str_equal(
        text,
        "&",
    ) || str_equal(text, "|") || str_equal(text, "++") || str_equal(text, "--") || str_equal(
        text,
        "+=",
    ) || str_equal(text, "-=")
}

/// Whether `text` names a type.
pub fn is_type(text: &str) -> (r: bool)
    ensures
        r == is_type_text(text@),
{
    str_equal(text, "void") || str_equal(text, "int") || str_equal(text, "float") || str_equal(
        text,
        "boolean",
    ) || str_equal(text, "char") || str_equal(text, "string")
}

/// Whether `text` is a symbol.
pub fn is_symbol(text: &str) -> (r: bool)
    ensures
        r == is_symbol_text(text@),
{
    str_equal(text, ";") || str_equal(text, "(") || str_equal(text, ")") || str_equal(text, "[")
        || str_equal(text, "]") || str_equal(text, "{") || str_equal(text, "}") || str_equal(
        text,
        ",",
    )
}

/// Whether `text` is a comparator.
pub fn is_comparator(text: &str) -> (r: bool)
    ensures
        r == is_comparator_text(text@),
{
    str_equal(text, "&&") || str_equal(text, "||") || str_equal(text, "==") || str_equal(
        text,
        "!=",
    ) || str_equal(text, "<") || str_equal(text, ">") || str_equal(text, ">=") || str_equal(
        text,
        "<=",
    )
}

/// The token of the kind `token_type` that the text `value` is read as: an
/// identifier or a number keeps the text, a string literal loses its quotes.
pub open spec fn pattern_token(token_type: TokenType, value: Seq<char>, file_line: usize)
    -> TokenView {
    TokenView {
        token_type,
        value: if token_type == TokenType::STRING {
            without_char(value, '"')
        } else {
            value
        },
        file_line,
    }
}

impl Token {
    pub fn new(token_type: TokenType, value: String, file_line: usize) -> (t: Self)
        ensures
            t@ == (TokenView { token_type, value: value@, file_line }),
    {
        Token { token_type, value, file_line }
    }

    pub fn new_keyword(value: String, file_line: usize) -> (t: Self)
        ensures
            t@ == (TokenView { token_type: TokenType::KEYWORD, value: value@, file_line }),
    {
        Token::new(TokenType::KEYWORD, value, file_line)
    }

    pub fn new_operator(value: String, file_line: usize) -> (t: Self)
        ensures
            t@ == (TokenView { token_type: TokenType::OPERATOR, value: value@, file_line }),
    {
        Token::new(TokenType::OPERATOR, value, file_line)
    }

    pub fn new_type(value: String, file_line: usize) -> (t: Self)
        ensures
            t@ == (TokenView { token_type: TokenType::TYPE, value: value@, file_line }),
    {
        Token::new(TokenType::TYPE, value, file_line)
    }

    pub fn new_symbol(value: String, file_line: usize) -> (t: Self)
        ensures
            t@ == (TokenView { token_type: TokenType::SYMBOL, value: value@, file_line }),
    {
        Token::new(TokenType::SYMBOL, value, file_line)
    }

    pub fn new_comparator(value: String, file_line: usize) -> (t: Self)
        ensures
            t@ == (TokenView { token_type: TokenType::COMPARATOR, value: value@, file_line }),
    {
        Token::new(TokenType::COMPARATOR, value, file_line)
    }

    pub fn new_id(value: String, file_line: usize) -> (t: Self)
        ensures
            t@ == (TokenView { token_type: TokenType::ID, value: value@, file_line }),
    {
        Token::new(TokenType::ID, value, file_line)
    }

    /// A string literal. The double quotes of `value` are not kept.
    pub fn new_string(value: String, file_line: usize) -> (t: Self)
        ensures
            t@ == (TokenView {
                token_type: TokenType::STRING,
                value: without_char(value@, '"'),
                file_line,
            }),
    {
        Token::new(TokenType::STRING, remove_char(value.as_str(), '"'), file_line)
    }

    pub fn new_number(value: String, file_line: usize) -> (t: Self)
        ensures
            t@ == (TokenView { token_type: TokenType::NUMBER, value: value@, file_line }),
    {
        Token::new(TokenType::NUMBER, value, file_line)
    }

    /// The token that `value` is read as once it has matched the pattern
    /// `rt`, whose kind is one of ID, STRING and NUMBER.
    pub fn from_regex_token(rt: &RegexToken, value: &str, file_line: usize) -> (t: Self)
        requires
            rt.token_type == TokenType::ID || rt.token_type == TokenType::STRING || rt.token_type
                == TokenType::NUMBER,
        ensures
            t@ == pattern_token(rt.token_type, value@, file_line),
    {
        match rt.token_type {
            TokenType::ID => Token::new_id(value.to_owned(), file_line),
            TokenType::STRING => Token::new_string(value.to_owned(), file_line),
            _ => Token::new_number(value.to_owned(), file_line),
        }
    }

    /// The end marker, on line `file_line`.
    pub fn eof(file_line: usize) -> (t: Self)
        ensures
            t@ == eof_token(file_line),
    {
        Token::new(TokenType::EOF, String::new(), file_line)
    }

    /// The kind and the text of the token.
    pub fn values(&self) -> (r: (TokenType, &str))
        ensures
            r.0 == self.token_type,
            r.1@ == self.value@,
    {
        (self.token_type, self.value.as_str())
    }
}

} // verus!
