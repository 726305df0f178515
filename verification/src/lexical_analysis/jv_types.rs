//! The types and the texts that name them.

use vstd::prelude::*;
use crate::text::str_equal;

verus! {

/// The types of the language.
#[derive(Debug, Clone, Copy, PartialEq, Eq, Structural)]
pub enum JvType {
    VOID,
    INT,
    FLOAT,
    BOOLEAN,
    CHAR,
    STRING,
}

/// The type that `text` names.
pub open spec fn spec_jv_type_of(text: Seq<char>) -> Option<JvType> {
    if text == "void"@ {
        Some(JvType::VOID)
    } else if text == "int"@ {
        Some(JvType::INT)
    } else if text == "float"@ {
        Some(JvType::FLOAT)
    } else if text == "boolean"@ {
        Some(JvType::BOOLEAN)
    } else if text == "char"@ {
        Some(JvType::CHAR)
    } else if text == "string"@ {
        Some(JvType::STRING)
    } else {
        None
    }
}

/// The type that `text` names. The match is exact and
/// case-sensitive.
pub fn jv_type_of(text: &str) -> (r: Option<JvType>)
    ensures
        r == spec_jv_type_of(text@),
{
    if str_equal(text, "void") {
        Some(JvType::VOID)
    } else if str_equal(text, "int") {
        Some(JvType::INT)
    } else if str_equal(text, "float") {
        Some(JvType::FLOAT)
    } else if str_equal(text, "boolean") {
        Some(JvType::BOOLEAN)
    } else if str_equal(text, "char") {
        Some(JvType::CHAR)
    } else if str_equal(text, "string") {
        Some(JvType::STRING)
    } else {
        None
    }
}

} // verus!
