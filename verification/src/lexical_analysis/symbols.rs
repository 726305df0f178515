//! The symbols and the texts that write them.

use vstd::prelude::*;
use crate::text::str_equal;

verus! {

/// The punctuation of the language.
#[derive(Debug, Clone, Copy, PartialEq, Eq, Structural)]
pub enum Symbol {
    ENDEXPR,
    POPEN,
    PCLOSE,
    BOPEN,
    BCLOSE,
    SBOPEN,
    SBCLOSE,
}

/// The symbol that `text` writes.
pub open spec fn spec_symbol_of(text: Seq<char>) -> Option<Symbol> {
    if text == ";"@ {
        Some(Symbol::ENDEXPR)
    } else if text == "("@ {
        Some(Symbol::POPEN)
    } else if text == ")"@ {
        Some(Symbol::PCLOSE)
    } else if text == "["@ {
        Some(Symbol::BOPEN)
    } else if text == "]"@ {
        Some(Symbol::BCLOSE)
    } else if text == "{"@ {
        Some(Symbol::SBOPEN)
    } else if text == "}"@ {
        Some(Symbol::SBCLOSE)
    } else {
        None
    }
}

/// The symbol that `text` writes. The match is exact and
/// case-sensitive.
pub fn symbol_of(text: &str) -> (r: Option<Symbol>)
    ensures
        r == spec_symbol_of(text@),
{
    if str_equal(text, ";") {
        Some(Symbol::ENDEXPR)
    } else if str_equal(text, "(") {
        Some(Symbol::POPEN)
    } else if str_equal(text, ")") {
        Some(Symbol::PCLOSE)
    } else if str_equal(text, "[") {
        Some(Symbol::BOPEN)
    } else if str_equal(text, "]") {
        Some(Symbol::BCLOSE)
    } else if str_equal(text, "{") {
        Some(Symbol::SBOPEN)
    } else if str_equal(text, "}") {
        Some(Symbol::SBCLOSE)
    } else {
        None
    }
}

impl Symbol {
    /// The name of the variant.
    pub open spec fn name(self) -> Seq<char> {
        match self {
            Symbol::ENDEXPR => "ENDEXPR"@,
            Symbol::POPEN => "POPEN"@,
            Symbol::PCLOSE => "PCLOSE"@,
            Symbol::BOPEN => "BOPEN"@,
            Symbol::BCLOSE => "BCLOSE"@,
            Symbol::SBOPEN => "SBOPEN"@,
            Symbol::SBCLOSE => "SBCLOSE"@,
        }
    }

    /// The name of the variant, as a string.
    pub fn to_string(&self) -> (s: String)
        ensures
            s@ == self.name(),
    {
        match self {
            Symbol::ENDEXPR => "ENDEXPR".to_owned(),
            Symbol::POPEN => "POPEN".to_owned(),
            Symbol::PCLOSE => "PCLOSE".to_owned(),
            Symbol::BOPEN => "BOPEN".to_owned(),
            Symbol::BCLOSE => "BCLOSE".to_owned(),
            Symbol::SBOPEN => "SBOPEN".to_owned(),
            Symbol::SBCLOSE => "SBCLOSE".to_owned(),
        }
    }
}

} // verus!
