//! The comparators and the texts that write them.

use vstd::prelude::*;
use crate::text::str_equal;

verus! {

/// The comparators: relational and logical.
#[derive(Debug, Clone, Copy, PartialEq, Eq, Structural)]
pub enum Comparator {
    AND,
    OR,
    EQ,
    NEQ,
    BGTHAN,
    SMTHAN,
    BGEQTHAN,
    SMEQTHAN,
}

/// The comparator that `text` writes.
pub open spec fn spec_comparator_of(text: Seq<char>) -> Option<Comparator> {
    if text == "&&"@ {
        Some(Comparator::AND)
    } else if text == "||"@ {
        Some(Comparator::OR)
    } else if text == "=="@ {
        Some(Comparator::EQ)
    } else if text == "!="@ {
        Some(Comparator::NEQ)
    } else if text == "<"@ {
        Some(Comparator::SMTHAN)
    } else if text == ">"@ {
        Some(Comparator::BGTHAN)
    } else if text == ">="@ {
        Some(Comparator::BGEQTHAN)
    } else if text == "<="@ {
        Some(Comparator::SMEQTHAN)
    } else {
        None
    }
}

/// The comparator that `text` writes. The match is exact and
/// case-sensitive.
pub fn comparator_of(text: &str) -> (r: Option<Comparator>)
    ensures
        r == spec_comparator_of(text@),
{
    if str_equal(text, "&&") {
        Some(Comparator::AND)
    } else if str_equal(text, "||") {
        Some(Comparator::OR)
    } else if str_equal(text, "==") {
        Some(Comparator::EQ)
    } else if str_equal(text, "!=") {
        Some(Comparator::NEQ)
    } else if str_equal(text, "<") {
        Some(Comparator::SMTHAN)
    } else if str_equal(text, ">") {
        Some(Comparator::BGTHAN)
    } else if str_equal(text, ">=") {
        Some(Comparator::BGEQTHAN)
    } else if str_equal(text, "<=") {
        Some(Comparator::SMEQTHAN)
    } else {
        None
    }
}

} // verus!
