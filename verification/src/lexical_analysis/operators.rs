//! The operators and the texts that write them.

use vstd::prelude::*;
use crate::text::str_equal;

verus! {

/// The operators.
#[derive(Debug, Clone, Copy, PartialEq, Eq, Structural)]
pub enum Operator {
    ASSIGN,
    ADD,
    SUBTRACT,
    MULTIPLY,
    DIVIDE,
    MODULE,
    NOT,
    BINARYAND,
    BINARYOR,
    INCREMENT,
    DECREMENT,
    INCREMENTBY,
    DECREMENTBY,
}

/// The operator that `text` writes.
pub open spec fn spec_operator_of(text: Seq<char>) -> Option<Operator> {
    if text == "="@ {
        Some(Operator::ASSIGN)
    } else if text == "+"@ {
        Some(Operator::ADD)
    } else if text == "-"@ {
        Some(Operator::SUBTRACT)
    } else if text == "*"@ {
        Some(Operator::MULTIPLY)
    } else if text == "/"@ {
        Some(Operator::DIVIDE)
    } else if text == "%"@ {
        Some(Operator::MODULE)
    } else if text == "!"@ {
        Some(Operator::NOT)
    } else if text == "&"@ {
        Some(Operator::BINARYAND)
    } else if text == "|"@ {
        Some(Operator::BINARYOR)
    } else if text == "++"@ {
        Some(Operator::INCREMENT)
    } else if text == "--"@ {
        Some(Operator::DECREMENT)
    } else if text == "+="@ {
        Some(Operator::INCREMENTBY)
    } else if text == "-="@ {
        Some(Operator::DECREMENTBY)
    } else {
        None
    }
}

/// The operator that `text` writes. The match is exact and
/// case-sensitive.
pub fn operator_of(text: &str) -> (r: Option<Operator>)
    ensures
        r == spec_operator_of(text@),
{
    if str_equal(text, "=") {
        Some(Operator::ASSIGN)
    } else if str_equal(text, "+") {
        Some(Operator::ADD)
    } else if str_equal(text, "-") {
        Some(Operator::SUBTRACT)
    } else if str_equal(text, "*") {
        Some(Operator::MULTIPLY)
    } else if str_equal(text, "/") {
        Some(Operator::DIVIDE)
    } else if str_equal(text, "%") {
        Some(Operator::MODULE)
    } else if str_equal(text, "!") {
        Some(Operator::NOT)
    } else if str_equal(text, "&") {
        Some(Operator::BINARYAND)
    } else if str_equal(text, "|") {
        Some(Operator::BINARYOR)
    } else if str_equal(text, "++") {
        Some(Operator::INCREMENT)
    } else if str_equal(text, "--") {
        Some(Operator::DECREMENT)
    } else if str_equal(text, "+=") {
        Some(Operator::INCREMENTBY)
    } else if str_equal(text, "-=") {
        Some(Operator::DECREMENTBY)
    } else {
        None
    }
}

impl Operator {
    /// The name of the variant.
    pub open spec fn name(self) -> Seq<char> {
        match self {
            Operator::ASSIGN => "ASSIGN"@,
            Operator::ADD => "ADD"@,
            Operator::SUBTRACT => "SUBTRACT"@,
            Operator::MULTIPLY => "MULTIPLY"@,
            Operator::DIVIDE => "DIVIDE"@,
            Operator::MODULE => "MODULE"@,
            Operator::NOT => "NOT"@,
            Operator::BINARYAND => "BINARYAND"@,
            Operator::BINARYOR => "BINARYOR"@,
            Operator::INCREMENT => "INCREMENT"@,
            Operator::DECREMENT => "DECREMENT"@,
            Operator::INCREMENTBY => "INCREMENTBY"@,
            Operator::DECREMENTBY => "DECREMENTBY"@,
        }
    }

    /// The name of the variant, as a string.
    pub fn to_string(&self) -> (s: String)
        ensures
            s@ == self.name(),
    {
        match self {
            Operator::ASSIGN => "ASSIGN".to_owned(),
            Operator::ADD => "ADD".to_owned(),
            Operator::SUBTRACT => "SUBTRACT".to_owned(),
            Operator::MULTIPLY => "MULTIPLY".to_owned(),
            Operator::DIVIDE => "DIVIDE".to_owned(),
            Operator::MODULE => "MODULE".to_owned(),
            Operator::NOT => "NOT".to_owned(),
            Operator::BINARYAND => "BINARYAND".to_owned(),
            Operator::BINARYOR => "BINARYOR".to_owned(),
            Operator::INCREMENT => "INCREMENT".to_owned(),
            Operator::DECREMENT => "DECREMENT".to_owned(),
            Operator::INCREMENTBY => "INCREMENTBY".to_owned(),
            Operator::DECREMENTBY => "DECREMENTBY".to_owned(),
        }
    }
}

} // verus!
